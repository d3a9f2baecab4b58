//! Stream alerts: follows, raids, subscriptions, gifts and cheers, and the
//! sample alerts that chat can trigger to test the overlay.

use vstd::prelude::*;

use crate::text;
use crate::json::{json_node, number_u64, parse_json, parse_u64_digits, JsonNode, JsonNodeView};
use crate::text::{chars_of, str_eq, string_of};

verus! {

/// What happened on the channel.
#[derive(Debug, Clone)]
pub enum AlertEventType {
    Follow { follower: String },
    Raid { from: String, viewers: u64 },
    Subscribe { subscriber: String, tier: String },
    ReSubscribe { subscriber: String, tier: String, subscribed_for: u64, streak: u64 },
    GiftSub { gifter: String, total: u64, tier: String },
    GiftedSub { gifted: String, tier: String },
    Bits { message: String, is_anonymous: bool, cheerer: String, bits: u64 },
}

/// An alert event as values.
pub enum AlertEventView {
    Follow { follower: Seq<char> },
    Raid { from: Seq<char>, viewers: u64 },
    Subscribe { subscriber: Seq<char>, tier: Seq<char> },
    ReSubscribe { subscriber: Seq<char>, tier: Seq<char>, subscribed_for: u64, streak: u64 },
    GiftSub { gifter: Seq<char>, total: u64, tier: Seq<char> },
    GiftedSub { gifted: Seq<char>, tier: Seq<char> },
    Bits { message: Seq<char>, is_anonymous: bool, cheerer: Seq<char>, bits: u64 },
}

impl View for AlertEventType {
    type V = AlertEventView;

    open spec fn view(&self) -> AlertEventView {
        match self {
            AlertEventType::Follow { follower } => AlertEventView::Follow { follower: follower@ },
            AlertEventType::Raid { from, viewers } => AlertEventView::Raid {
                from: from@,
                viewers: *viewers,
            },
            AlertEventType::Subscribe { subscriber, tier } => AlertEventView::Subscribe {
                subscriber: subscriber@,
                tier: tier@,
            },
            AlertEventType::ReSubscribe { subscriber, tier, subscribed_for, streak } =>
                AlertEventView::ReSubscribe {
                subscriber: subscriber@,
                tier: tier@,
                subscribed_for: *subscribed_for,
                streak: *streak,
            },
            AlertEventType::GiftSub { gifter, total, tier } => AlertEventView::GiftSub {
                gifter: gifter@,
                total: *total,
                tier: tier@,
            },
            AlertEventType::GiftedSub { gifted, tier } => AlertEventView::GiftedSub {
                gifted: gifted@,
                tier: tier@,
            },
            AlertEventType::Bits { message, is_anonymous, cheerer, bits } => AlertEventView::Bits {
                message: message@,
                is_anonymous: *is_anonymous,
                cheerer: cheerer@,
                bits: *bits,
            },
        }
    }
}

impl AlertEventType {
    /// An event with the same fields.
    pub fn duplicate(&self) -> (r: AlertEventType)
        ensures
            r@ == self@,
    {
        match self {
            AlertEventType::Follow { follower } => AlertEventType::Follow {
                follower: follower.clone(),
            },
            AlertEventType::Raid { from, viewers } => AlertEventType::Raid {
                from: from.clone(),
                viewers: *viewers,
            },
            AlertEventType::Subscribe { subscriber, tier } => AlertEventType::Subscribe {
                subscriber: subscriber.clone(),
                tier: tier.clone(),
            },
            AlertEventType::ReSubscribe { subscriber, tier, subscribed_for, streak } =>
                AlertEventType::ReSubscribe {
                subscriber: subscriber.clone(),
                tier: tier.clone(),
                subscribed_for: *subscribed_for,
                streak: *streak,
            },
            AlertEventType::GiftSub { gifter, total, tier } => AlertEventType::GiftSub {
                gifter: gifter.clone(),
                total: *total,
                tier: tier.clone(),
            },
            AlertEventType::GiftedSub { gifted, tier } => AlertEventType::GiftedSub {
                gifted: gifted.clone(),
                tier: tier.clone(),
            },
            AlertEventType::Bits { message, is_anonymous, cheerer, bits } => AlertEventType::Bits {
                message: message.clone(),
                is_anonymous: *is_anonymous,
                cheerer: cheerer.clone(),
                bits: *bits,
            },
        }
    }
}

/// An alert for the overlay; `new` is false for alerts replayed from the
/// event history.
#[derive(Debug, Clone)]
pub struct Alert {
    pub new: bool,
    pub alert_type: AlertEventType,
}

/// An alert as values.
pub struct AlertView {
    pub new: bool,
    pub alert_type: AlertEventView,
}

impl View for Alert {
    type V = AlertView;

    open spec fn view(&self) -> AlertView {
        AlertView { new: self.new, alert_type: self.alert_type@ }
    }
}

/// The sample raid.
pub open spec fn raid_sample() -> AlertView {
    AlertView { new: true, alert_type: AlertEventView::Raid { from: "lmao"@, viewers: 9999 } }
}

/// The sample follow.
pub open spec fn follow_sample() -> AlertView {
    AlertView { new: true, alert_type: AlertEventView::Follow { follower: "lmao"@ } }
}

/// The sample subscription.
pub open spec fn sub_sample() -> AlertView {
    AlertView {
        new: true,
        alert_type: AlertEventView::Subscribe { subscriber: "lmao"@, tier: "3"@ },
    }
}

/// The sample resubscription.
pub open spec fn resub_sample() -> AlertView {
    AlertView {
        new: true,
        alert_type: AlertEventView::ReSubscribe {
            subscriber: "lmao"@,
            tier: "3"@,
            subscribed_for: 4,
            streak: 2,
        },
    }
}

/// The sample gifted subscriptions.
pub open spec fn giftsub_sample() -> AlertView {
    AlertView {
        new: true,
        alert_type: AlertEventView::GiftSub { gifter: "lmao"@, total: 9999, tier: "3"@ },
    }
}

/// The sample raid from `asd`.
pub open spec fn asd_sample() -> AlertView {
    AlertView { new: true, alert_type: AlertEventView::Raid { from: "asd"@, viewers: 9999 } }
}

impl Alert {
    /// A new raid from `lmao` with 9999 viewers.
    pub fn raid_test() -> (a: Alert)
        ensures
            a@ == raid_sample(),
    {
        Alert {
            new: true,
            alert_type: AlertEventType::Raid { from: String::from_str("lmao"), viewers: 9999 },
        }
    }

    /// A new follow from `lmao`.
    pub fn follow_test() -> (a: Alert)
        ensures
            a@ == follow_sample(),
    {
        Alert {
            new: true,
            alert_type: AlertEventType::Follow { follower: String::from_str("lmao") },
        }
    }

    /// A new tier 3 subscription from `lmao`.
    pub fn sub_test() -> (a: Alert)
        ensures
            a@ == sub_sample(),
    {
        Alert {
            new: true,
            alert_type: AlertEventType::Subscribe {
                subscriber: String::from_str("lmao"),
                tier: String::from_str("3"),
            },
        }
    }

    /// A new tier 3 resubscription from `lmao`: 4 months, a streak of 2.
    pub fn resub_test() -> (a: Alert)
        ensures
            a@ == resub_sample(),
    {
        Alert {
            new: true,
            alert_type: AlertEventType::ReSubscribe {
                subscriber: String::from_str("lmao"),
                tier: String::from_str("3"),
                subscribed_for: 4,
                streak: 2,
            },
        }
    }

    /// A new gift of 9999 tier 3 subscriptions from `lmao`.
    pub fn giftsub_test() -> (a: Alert)
        ensures
            a@ == giftsub_sample(),
    {
        Alert {
            new: true,
            alert_type: AlertEventType::GiftSub {
                gifter: String::from_str("lmao"),
                total: 9999,
                tier: String::from_str("3"),
            },
        }
    }

    /// A new raid from `asd` with 9999 viewers.
    pub fn asd_test() -> (a: Alert)
        ensures
            a@ == asd_sample(),
    {
        Alert {
            new: true,
            alert_type: AlertEventType::Raid { from: String::from_str("asd"), viewers: 9999 },
        }
    }
}

/// The sample alert that a lowercased test name asks for; any other name
/// gives the sample raid.
pub open spec fn sample_for(name: Seq<char>) -> AlertView {
    if name == "raid"@ {
        raid_sample()
    } else if name == "follow"@ {
        follow_sample()
    } else if name == "sub"@ {
        sub_sample()
    } else if name == "resub"@ {
        resub_sample()
    } else if name == "giftsub"@ {
        giftsub_sample()
    } else if name == "asd"@ {
        asd_sample()
    } else {
        raid_sample()
    }
}

/// The sample alert for a lowercased test name (see `sample_for`).
pub fn sample_alert(lowered: &str) -> (a: Alert)
    ensures
        a@ == sample_for(lowered@),
{
    if str_eq(lowered, "raid") {
        Alert::raid_test()
    } else if str_eq(lowered, "follow") {
        Alert::follow_test()
    } else if str_eq(lowered, "sub") {
        Alert::sub_test()
    } else if str_eq(lowered, "resub") {
        Alert::resub_test()
    } else if str_eq(lowered, "giftsub") {
        Alert::giftsub_test()
    } else if str_eq(lowered, "asd") {
        Alert::asd_test()
    } else {
        Alert::raid_test()
    }
}

/// The sample alert that the `test` chat command asks for: its argument is
/// compared without regard to case.
pub fn test_alert(name: &str) -> (a: Alert)
    ensures
        a@ == sample_for(text::lowercase(name@)),
{
    let lowered = name.to_lowercase();
    sample_alert(lowered.as_str())
}

/// Whether a message of an overlay asks for the event history.
pub fn is_history_request(msg: &str) -> (b: bool)
    ensures
        b == text::starts_with(msg@, "db"@),
{
    let chars = chars_of(msg);
    let db = chars_of("db");
    text::starts_with_exec(&chars, &db)
}

/// The answer to a history request: `db::` and then the alerts of the
/// history, written as JSON (`alerts_json`).
pub fn history_reply(alerts_json: &str) -> (r: String)
    ensures
        r@ == "db::"@ + alerts_json@,
{
    let mut r = String::from_str("db::");
    r.append(alerts_json);
    r
}

/// The event history as the overlays get it: the stored events, newest
/// first, each as an alert that is not new.
pub open spec fn history(events: Seq<AlertEventView>) -> Seq<AlertView> {
    Seq::new(events.len(), |i: int| AlertView { new: false, alert_type: events[events.len() - 1 - i] })
}

/// The event history for the stored events `events`, oldest first (see
/// `history`).
pub fn stored_alerts(events: &Vec<AlertEventType>) -> (r: Vec<Alert>)
    ensures
        r@.map_values(|a: Alert| a@) == history(events@.map_values(|e: AlertEventType| e@)),
{
    let n = events.len();
    let mut r: Vec<Alert> = Vec::new();
    let mut i: usize = n;
    while i > 0
        invariant
            i <= n == events@.len(),
            r@.len() == n - i,
            forall|k: int|
                0 <= k < n - i ==> (#[trigger] r@[k])@ == (AlertView {
                    new: false,
                    alert_type: events@[n - 1 - k]@,
                }),
        decreases i,
    {
        r.push(Alert { new: false, alert_type: events[i - 1].duplicate() });
        i = i - 1;
    }
    assert(r@.map_values(|a: Alert| a@) =~= history(events@.map_values(|e: AlertEventType| e@)));
    r
}

/// A value of an event record: a text, a whole number from 0 to
/// `u64::MAX`, a truth value, or anything else (`Other`: no value, a list,
/// an object, or a number outside that range).
#[derive(Debug)]
pub enum RecordValue {
    Text(String),
    Number(u64),
    Bool(bool),
    Other,
}

/// A record value as values.
pub enum RecordValueView {
    Text(Seq<char>),
    Number(u64),
    Bool(bool),
    Other,
}

impl View for RecordValue {
    type V = RecordValueView;

    open spec fn view(&self) -> RecordValueView {
        match self {
            RecordValue::Text(t) => RecordValueView::Text(t@),
            RecordValue::Number(n) => RecordValueView::Number(*n),
            RecordValue::Bool(b) => RecordValueView::Bool(*b),
            RecordValue::Other => RecordValueView::Other,
        }
    }
}

/// The record under which an event is stored: its kind under `type`, then
/// its fields; a cheer keeps its cheerer only when it was not anonymous.
pub open spec fn record_of(e: AlertEventView) -> Seq<(Seq<char>, RecordValueView)> {
    match e {
        AlertEventView::Follow { follower } => seq![
            ("type"@, RecordValueView::Text("Follow"@)),
            ("follower"@, RecordValueView::Text(follower)),
        ],
        AlertEventView::Raid { from, viewers } => seq![
            ("type"@, RecordValueView::Text("Raid"@)),
            ("from"@, RecordValueView::Text(from)),
            ("viewers"@, RecordValueView::Number(viewers)),
        ],
        AlertEventView::Subscribe { subscriber, tier } => seq![
            ("type"@, RecordValueView::Text("Subscribe"@)),
            ("subscriber"@, RecordValueView::Text(subscriber)),
            ("tier"@, RecordValueView::Text(tier)),
        ],
        AlertEventView::ReSubscribe { subscriber, tier, subscribed_for, streak } => seq![
            ("type"@, RecordValueView::Text("ReSubscribe"@)),
            ("subscriber"@, RecordValueView::Text(subscriber)),
            ("tier"@, RecordValueView::Text(tier)),
            ("subscribed_for"@, RecordValueView::Number(subscribed_for)),
            ("streak"@, RecordValueView::Number(streak)),
        ],
        AlertEventView::GiftSub { gifter, total, tier } => seq![
            ("type"@, RecordValueView::Text("GiftSub"@)),
            ("gifter"@, RecordValueView::Text(gifter)),
            ("total"@, RecordValueView::Number(total)),
            ("tier"@, RecordValueView::Text(tier)),
        ],
        AlertEventView::GiftedSub { gifted, tier } => seq![
            ("type"@, RecordValueView::Text("GiftedSub"@)),
            ("gifted"@, RecordValueView::Text(gifted)),
            ("tier"@, RecordValueView::Text(tier)),
        ],
        AlertEventView::Bits { message, is_anonymous, cheerer, bits } => seq![
            ("type"@, RecordValueView::Text("Bits"@)),
            (
                "cheerer"@,
                RecordValueView::Text(
                    if is_anonymous {
                        "Anonymous"@
                    } else {
                        cheerer
                    },
                ),
            ),
            ("bits"@, RecordValueView::Number(bits)),
            ("message"@, RecordValueView::Text(message)),
        ],
    }
}

/// The views of record fields.
pub open spec fn record_view(fields: Seq<(String, RecordValue)>) -> Seq<(Seq<char>, RecordValueView)> {
    fields.map_values(|f: (String, RecordValue)| (f.0@, f.1@))
}

/// A record field with a text value.
fn text_field(name: &str, value: &String) -> (f: (String, RecordValue))
    ensures
        f.0@ == name@,
        f.1@ == RecordValueView::Text(value@),
{
    (String::from_str(name), RecordValue::Text(value.clone()))
}

/// A record field with a number value.
fn number_field(name: &str, value: u64) -> (f: (String, RecordValue))
    ensures
        f.0@ == name@,
        f.1@ == RecordValueView::Number(value),
{
    (String::from_str(name), RecordValue::Number(value))
}

impl AlertEventType {
    /// The record under which the event is stored (see `record_of`).
    pub fn record(&self) -> (r: Vec<(String, RecordValue)>)
        ensures
            record_view(r@) == record_of(self@),
    {
        let mut r: Vec<(String, RecordValue)> = Vec::new();
        match self {
            AlertEventType::Follow { follower } => {
                r.push(text_field("type", &String::from_str("Follow")));
                r.push(text_field("follower", follower));
            },
            AlertEventType::Raid { from, viewers } => {
                r.push(text_field("type", &String::from_str("Raid")));
                r.push(text_field("from", from));
                r.push(number_field("viewers", *viewers));
            },
            AlertEventType::Subscribe { subscriber, tier } => {
                r.push(text_field("type", &String::from_str("Subscribe")));
                r.push(text_field("subscriber", subscriber));
                r.push(text_field("tier", tier));
            },
            AlertEventType::ReSubscribe { subscriber, tier, subscribed_for, streak } => {
                r.push(text_field("type", &String::from_str("ReSubscribe")));
                r.push(text_field("subscriber", subscriber));
                r.push(text_field("tier", tier));
                r.push(number_field("subscribed_for", *subscribed_for));
                r.push(number_field("streak", *streak));
            },
            AlertEventType::GiftSub { gifter, total, tier } => {
                r.push(text_field("type", &String::from_str("GiftSub")));
                r.push(text_field("gifter", gifter));
                r.push(number_field("total", *total));
                r.push(text_field("tier", tier));
            },
            AlertEventType::GiftedSub { gifted, tier } => {
                r.push(text_field("type", &String::from_str("GiftedSub")));
                r.push(text_field("gifted", gifted));
                r.push(text_field("tier", tier));
            },
            AlertEventType::Bits { message, is_anonymous, cheerer, bits } => {
                r.push(text_field("type", &String::from_str("Bits")));
                if *is_anonymous {
                    r.push(text_field("cheerer", &String::from_str("Anonymous")));
                } else {
                    r.push(text_field("cheerer", cheerer));
                }
                r.push(number_field("bits", *bits));
                r.push(text_field("message", message));
            },
        }
        assert(record_view(r@) =~= record_of(self@));
        r
    }
}

// ---------------------------------------------------------------------------
// Reading the event history back
// ---------------------------------------------------------------------------

/// The value of the first field of `fields` named `key`.
pub open spec fn record_field(fields: Seq<(Seq<char>, RecordValueView)>, key: Seq<char>) -> Option<
    RecordValueView,
>
    decreases fields.len(),
{
    if fields.len() == 0 {
        None
    } else if fields[0].0 == key {
        Some(fields[0].1)
    } else {
        record_field(fields.drop_first(), key)
    }
}

/// The field `key` of `fields`, when it is a text.
pub open spec fn record_text(fields: Seq<(Seq<char>, RecordValueView)>, key: Seq<char>) -> Option<
    Seq<char>,
> {
    match record_field(fields, key) {
        Some(RecordValueView::Text(t)) => Some(t),
        _ => None,
    }
}

/// The field `key` of `fields`, when it is a whole number.
pub open spec fn record_number(fields: Seq<(Seq<char>, RecordValueView)>, key: Seq<char>) -> Option<
    u64,
> {
    match record_field(fields, key) {
        Some(RecordValueView::Number(n)) => Some(n),
        _ => None,
    }
}

/// The field `key` of `fields`, when it is a truth value.
pub open spec fn record_bool(fields: Seq<(Seq<char>, RecordValueView)>, key: Seq<char>) -> Option<
    bool,
> {
    match record_field(fields, key) {
        Some(RecordValueView::Bool(b)) => Some(b),
        _ => None,
    }
}

/// How the activity page reads one history record: by its `type` text it
/// reads the fields of that kind of event (a cheer's bits under `viewers`,
/// a gift's total under `message`); a record of another kind is the page's
/// empty alert (`Some(None)`). It cannot be read (`None`) when `type` or a
/// field that its kind reads is missing or of another sort.
pub open spec fn event_of_record(fields: Seq<(Seq<char>, RecordValueView)>) -> Option<
    Option<AlertEventView>,
> {
    match record_text(fields, "type"@) {
        None => None,
        Some(ty) => if ty == "Follow"@ {
            match record_text(fields, "follower"@) {
                Some(follower) => Some(Some(AlertEventView::Follow { follower })),
                None => None,
            }
        } else if ty == "Subscribe"@ {
            match (record_text(fields, "subscriber"@), record_text(fields, "tier"@)) {
                (Some(subscriber), Some(tier)) => Some(
                    Some(AlertEventView::Subscribe { subscriber, tier }),
                ),
                _ => None,
            }
        } else if ty == "ReSubscribe"@ {
            match (
                record_text(fields, "subscriber"@),
                record_text(fields, "tier"@),
                record_number(fields, "subscribed_for"@),
                record_number(fields, "streak"@),
            ) {
                (Some(subscriber), Some(tier), Some(subscribed_for), Some(streak)) => Some(
                    Some(AlertEventView::ReSubscribe { subscriber, tier, subscribed_for, streak }),
                ),
                _ => None,
            }
        } else if ty == "Raid"@ {
            match (record_text(fields, "from"@), record_number(fields, "viewers"@)) {
                (Some(from), Some(viewers)) => Some(Some(AlertEventView::Raid { from, viewers })),
                _ => None,
            }
        } else if ty == "Bits"@ {
            match (
                record_text(fields, "cheerer"@),
                record_text(fields, "message"@),
                record_bool(fields, "is_anonymous"@),
                record_number(fields, "viewers"@),
            ) {
                (Some(cheerer), Some(message), Some(is_anonymous), Some(bits)) => Some(
                    Some(AlertEventView::Bits { message, is_anonymous, cheerer, bits }),
                ),
                _ => None,
            }
        } else if ty == "GiftSub"@ {
            match (
                record_text(fields, "gifter"@),
                record_number(fields, "message"@),
                record_text(fields, "tier"@),
            ) {
                (Some(gifter), Some(total), Some(tier)) => Some(
                    Some(AlertEventView::GiftSub { gifter, total, tier }),
                ),
                _ => None,
            }
        } else if ty == "GiftedSub"@ {
            match (record_text(fields, "gifted"@), record_text(fields, "tier"@)) {
                (Some(gifted), Some(tier)) => Some(Some(AlertEventView::GiftedSub { gifted, tier })),
                _ => None,
            }
        } else {
            Some(None)
        },
    }
}

/// The view of a history item: an event, or the empty alert (`None`).
pub open spec fn item_view(item: Option<AlertEventType>) -> Option<AlertEventView> {
    match item {
        Some(e) => Some(e@),
        None => None,
    }
}

/// The view of a history item that may not have been read.
pub open spec fn read_item_view(r: Option<Option<AlertEventType>>) -> Option<Option<AlertEventView>> {
    match r {
        Some(item) => Some(item_view(item)),
        None => None,
    }
}

/// The value of the first field of `fields` named `key`.
fn find_field<'a>(fields: &'a Vec<(String, RecordValue)>, key: &str) -> (r: Option<&'a RecordValue>)
    ensures
        match r {
            Some(v) => record_field(record_view(fields@), key@) == Some(v@),
            None => record_field(record_view(fields@), key@) is None,
        },
{
    let ghost fv = record_view(fields@);
    let mut i: usize = 0;
    assert(fv.skip(0) =~= fv);
    while i < fields.len()
        invariant
            i <= fields@.len(),
            fv == record_view(fields@),
            record_field(fv, key@) == record_field(fv.skip(i as int), key@),
        decreases fields@.len() - i,
    {
        let (k, v) = &fields[i];
        assert(fv.skip(i as int)[0] == fv[i as int]);
        if str_eq(k.as_str(), key) {
            return Some(v);
        }
        assert(fv.skip(i as int).drop_first() =~= fv.skip(i + 1));
        i = i + 1;
    }
    None
}

/// The field `key` of `fields`, when it is a text.
fn text_value(fields: &Vec<(String, RecordValue)>, key: &str) -> (r: Option<String>)
    ensures
        match r {
            Some(t) => record_text(record_view(fields@), key@) == Some(t@),
            None => record_text(record_view(fields@), key@) is None,
        },
{
    match find_field(fields, key) {
        Some(RecordValue::Text(t)) => Some(t.clone()),
        _ => None,
    }
}

/// The field `key` of `fields`, when it is a whole number.
fn number_value(fields: &Vec<(String, RecordValue)>, key: &str) -> (r: Option<u64>)
    ensures
        r == record_number(record_view(fields@), key@),
{
    match find_field(fields, key) {
        Some(RecordValue::Number(n)) => Some(*n),
        _ => None,
    }
}

/// The field `key` of `fields`, when it is a truth value.
fn bool_value(fields: &Vec<(String, RecordValue)>, key: &str) -> (r: Option<bool>)
    ensures
        r == record_bool(record_view(fields@), key@),
{
    match find_field(fields, key) {
        Some(RecordValue::Bool(b)) => Some(*b),
        _ => None,
    }
}

/// How the activity page reads one history record (see `event_of_record`).
pub fn event_from_record(fields: &Vec<(String, RecordValue)>) -> (r: Option<Option<AlertEventType>>)
    ensures
        read_item_view(r) == event_of_record(record_view(fields@)),
{
    let ty = match text_value(fields, "type") {
        Some(t) => t,
        None => {
            return None;
        },
    };
    if str_eq(ty.as_str(), "Follow") {
        match text_value(fields, "follower") {
            Some(follower) => Some(Some(AlertEventType::Follow { follower })),
            None => None,
        }
    } else if str_eq(ty.as_str(), "Subscribe") {
        match (text_value(fields, "subscriber"), text_value(fields, "tier")) {
            (Some(subscriber), Some(tier)) => Some(
                Some(AlertEventType::Subscribe { subscriber, tier }),
            ),
            _ => None,
        }
    } else if str_eq(ty.as_str(), "ReSubscribe") {
        match (
            text_value(fields, "subscriber"),
            text_value(fields, "tier"),
            number_value(fields, "subscribed_for"),
            number_value(fields, "streak"),
        ) {
            (Some(subscriber), Some(tier), Some(subscribed_for), Some(streak)) => Some(
                Some(AlertEventType::ReSubscribe { subscriber, tier, subscribed_for, streak }),
            ),
            _ => None,
        }
    } else if str_eq(ty.as_str(), "Raid") {
        match (text_value(fields, "from"), number_value(fields, "viewers")) {
            (Some(from), Some(viewers)) => Some(Some(AlertEventType::Raid { from, viewers })),
            _ => None,
        }
    } else if str_eq(ty.as_str(), "Bits") {
        match (
            text_value(fields, "cheerer"),
            text_value(fields, "message"),
            bool_value(fields, "is_anonymous"),
            number_value(fields, "viewers"),
        ) {
            (Some(cheerer), Some(message), Some(is_anonymous), Some(bits)) => Some(
                Some(AlertEventType::Bits { message, is_anonymous, cheerer, bits }),
            ),
            _ => None,
        }
    } else if str_eq(ty.as_str(), "GiftSub") {
        match (
            text_value(fields, "gifter"),
            number_value(fields, "message"),
            text_value(fields, "tier"),
        ) {
            (Some(gifter), Some(total), Some(tier)) => Some(
                Some(AlertEventType::GiftSub { gifter, total, tier }),
            ),
            _ => None,
        }
    } else if str_eq(ty.as_str(), "GiftedSub") {
        match (text_value(fields, "gifted"), text_value(fields, "tier")) {
            (Some(gifted), Some(tier)) => Some(Some(AlertEventType::GiftedSub { gifted, tier })),
            _ => None,
        }
    } else {
        Some(None)
    }
}

/// The record value that the JSON text `t` holds: a string as a text, a
/// truth value as itself, a number as the whole number from 0 to
/// `u64::MAX` that it writes (`as_u64`), anything else as `Other`.
pub open spec fn record_value_of(t: Seq<char>) -> RecordValueView {
    match json_node(t) {
        Some(JsonNodeView::Text(s)) => RecordValueView::Text(s),
        Some(JsonNodeView::Bool(b)) => RecordValueView::Bool(b),
        Some(JsonNodeView::Number(n)) => match number_u64(n) {
            Some(u) => RecordValueView::Number(u),
            None => RecordValueView::Other,
        },
        _ => RecordValueView::Other,
    }
}

/// The fields of the record that the JSON text `t` holds, in the order of
/// the object's fields; none when `t` does not hold an object.
pub open spec fn record_of_json(t: Seq<char>) -> Option<Seq<(Seq<char>, RecordValueView)>> {
    match json_node(t) {
        Some(JsonNodeView::Object(fields)) => Some(
            fields.map_values(|f: (Seq<char>, Seq<char>)| (f.0, record_value_of(f.1))),
        ),
        _ => None,
    }
}

/// The records that the JSON texts `items` hold, in order; none when one of
/// them is not an object.
pub open spec fn records_of_items(items: Seq<Seq<char>>) -> Option<
    Seq<Seq<(Seq<char>, RecordValueView)>>,
>
    decreases items.len(),
{
    if items.len() == 0 {
        Some(Seq::empty())
    } else {
        match (records_of_items(items.drop_last()), record_of_json(items.last())) {
            (Some(records), Some(record)) => Some(records.push(record)),
            _ => None,
        }
    }
}

/// The records of the JSON text `text`: it holds a list whose every element
/// is an object; none otherwise.
pub open spec fn json_records(text: Seq<char>) -> Option<Seq<Seq<(Seq<char>, RecordValueView)>>> {
    match json_node(text) {
        Some(JsonNodeView::Array(items)) => records_of_items(items),
        _ => None,
    }
}

/// The views of parsed records.
pub open spec fn records_view(r: Option<Vec<Vec<(String, RecordValue)>>>) -> Option<
    Seq<Seq<(Seq<char>, RecordValueView)>>,
> {
    match r {
        Some(v) => Some(record_views(v@)),
        None => None,
    }
}

/// The views of a list of records.
pub open spec fn record_views(v: Seq<Vec<(String, RecordValue)>>) -> Seq<
    Seq<(Seq<char>, RecordValueView)>,
> {
    v.map_values(|rec: Vec<(String, RecordValue)>| record_view(rec@))
}

/// The record value that the JSON text `t` holds (see `record_value_of`).
fn record_value_from(t: &str) -> (v: RecordValue)
    ensures
        v@ == record_value_of(t@),
{
    match parse_json(t) {
        Some(JsonNode::Text(s)) => RecordValue::Text(s),
        Some(JsonNode::Bool(b)) => RecordValue::Bool(b),
        Some(JsonNode::Number(n)) => match parse_u64_digits(n.as_str()) {
            Some(u) => RecordValue::Number(u),
            None => RecordValue::Other,
        },
        _ => RecordValue::Other,
    }
}

/// The record that the JSON text `t` holds (see `record_of_json`).
fn record_from_json(t: &str) -> (r: Option<Vec<(String, RecordValue)>>)
    ensures
        match r {
            Some(f) => record_of_json(t@) == Some(record_view(f@)),
            None => record_of_json(t@) is None,
        },
{
    let fields = match parse_json(t) {
        Some(JsonNode::Object(fields)) => fields,
        _ => {
            return None;
        },
    };
    let ghost fv = fields@.map_values(|f: (String, String)| (f.0@, f.1@));
    let ghost want = fv.map_values(|f: (Seq<char>, Seq<char>)| (f.0, record_value_of(f.1)));
    let mut out: Vec<(String, RecordValue)> = Vec::new();
    let mut i: usize = 0;
    while i < fields.len()
        invariant
            i <= fields@.len(),
            fv == fields@.map_values(|f: (String, String)| (f.0@, f.1@)),
            want == fv.map_values(|f: (Seq<char>, Seq<char>)| (f.0, record_value_of(f.1))),
            record_view(out@) == want.take(i as int),
        decreases fields@.len() - i,
    {
        let (k, v) = &fields[i];
        let value = record_value_from(v.as_str());
        let ghost before = record_view(out@);
        out.push((k.clone(), value));
        assert(record_view(out@) =~= before.push((k@, value@)));
        assert(want.take(i + 1) =~= want.take(i as int).push(want[i as int]));
        i = i + 1;
    }
    assert(want.take(fields@.len() as int) =~= want);
    Some(out)
}

/// Once an element is not an object, the list it begins has no records.
pub proof fn lemma_records_refused(items: Seq<Seq<char>>, i: int)
    requires
        0 <= i <= items.len(),
        records_of_items(items.take(i)) is None,
    ensures
        records_of_items(items) is None,
    decreases items.len(),
{
    if i < items.len() {
        assert(items.drop_last().take(i) =~= items.take(i));
        lemma_records_refused(items.drop_last(), i);
    } else {
        assert(items.take(i) =~= items);
    }
}

/// The records of the JSON text `text` (see `json_records`).
fn records_from_json(text: &str) -> (r: Option<Vec<Vec<(String, RecordValue)>>>)
    ensures
        records_view(r) == json_records(text@),
{
    let items = match parse_json(text) {
        Some(JsonNode::Array(items)) => items,
        _ => {
            return None;
        },
    };
    let ghost iv = items@.map_values(|s: String| s@);
    let mut out: Vec<Vec<(String, RecordValue)>> = Vec::new();
    let mut i: usize = 0;
    assert(iv.take(0) =~= Seq::<Seq<char>>::empty());
    assert(record_views(out@) =~= Seq::<Seq<(Seq<char>, RecordValueView)>>::empty());
    while i < items.len()
        invariant
            i <= items@.len(),
            iv == items@.map_values(|s: String| s@),
            json_node(text@) == Some(JsonNodeView::Array(iv)),
            records_of_items(iv.take(i as int)) == Some(record_views(out@)),
        decreases items@.len() - i,
    {
        assert(iv.take(i + 1).drop_last() =~= iv.take(i as int));
        assert(iv.take(i + 1).last() == items@[i as int]@);
        match record_from_json(items[i].as_str()) {
            Some(record) => {
                let ghost before = record_views(out@);
                out.push(record);
                assert(record_views(out@) =~= before.push(record_view(record@)));
            },
            None => {
                proof {
                    lemma_records_refused(iv, i + 1);
                }
                return None;
            },
        }
        i = i + 1;
    }
    assert(iv.take(items@.len() as int) =~= iv);
    Some(out)
}

/// The items of the records `records`, in order; none when one of them
/// cannot be read.
pub open spec fn items_of_records(records: Seq<Seq<(Seq<char>, RecordValueView)>>) -> Option<
    Seq<Option<AlertEventView>>,
>
    decreases records.len(),
{
    if records.len() == 0 {
        Some(Seq::empty())
    } else {
        match (items_of_records(records.drop_last()), event_of_record(records.last())) {
            (Some(items), Some(item)) => Some(items.push(item)),
            _ => None,
        }
    }
}

/// The history message `msg` as the activity page reads it: the text after
/// its first `::` is read as a JSON list of records, and each record as an
/// item (see `event_of_record`); none where the page cannot read it.
pub open spec fn history_items_of(msg: Seq<char>) -> Option<Seq<Option<AlertEventView>>> {
    match text::find(msg, "::"@) {
        None => None,
        Some(i) => match json_records(msg.skip(i + 2)) {
            None => None,
            Some(records) => items_of_records(records),
        },
    }
}

/// The views of history items.
pub open spec fn items_view(items: Seq<Option<AlertEventType>>) -> Seq<Option<AlertEventView>> {
    items.map_values(|item: Option<AlertEventType>| item_view(item))
}

/// The items of the history message `msg` (see `history_items_of`).
pub fn history_items(msg: &str) -> (r: Option<Vec<Option<AlertEventType>>>)
    ensures
        match r {
            Some(items) => history_items_of(msg@) == Some(items_view(items@)),
            None => history_items_of(msg@) is None,
        },
{
    let chars = chars_of(msg);
    let sep = chars_of("::");
    let i = match text::find_from_exec(&chars, &sep, 0) {
        Some(i) => i,
        None => {
            return None;
        },
    };
    proof {
        reveal_strlit("::");
        text::lemma_find_from(chars@, sep@, 0);
        assert(sep@.len() == 2);
    }
    assert(i + 2 <= chars.len());
    let from: usize = i + 2;
    let rest = string_of(&chars, from, chars.len());
    assert(rest@ =~= msg@.skip(i + 2));
    let records = match records_from_json(rest.as_str()) {
        Some(records) => records,
        None => {
            return None;
        },
    };
    let ghost rv = record_views(records@);
    let mut items: Vec<Option<AlertEventType>> = Vec::new();
    let mut j: usize = 0;
    assert(rv.take(0) =~= Seq::<Seq<(Seq<char>, RecordValueView)>>::empty());
    assert(items_view(items@) =~= Seq::<Option<AlertEventView>>::empty());
    while j < records.len()
        invariant
            j <= records@.len(),
            rv == record_views(records@),
            json_records(msg@.skip(i + 2)) == Some(rv),
            text::find(msg@, "::"@) == Some(i as int),
            items_of_records(rv.take(j as int)) == Some(items_view(items@)),
        decreases records@.len() - j,
    {
        assert(rv.take(j + 1).drop_last() =~= rv.take(j as int));
        assert(rv.take(j + 1).last() == record_view(records@[j as int]@));
        match event_from_record(&records[j]) {
            Some(item) => {
                let ghost before = items_view(items@);
                items.push(item);
                assert(items_view(items@) =~= before.push(item_view(item)));
            },
            None => {
                proof {
                    assert(items_of_records(rv.take(j + 1)) is None);
                    lemma_items_refused(rv, j as int + 1);
                }
                return None;
            },
        }
        j = j + 1;
    }
    assert(rv.take(records@.len() as int) =~= rv);
    Some(items)
}

/// Once a record cannot be read, neither can the list it begins.
pub proof fn lemma_items_refused(records: Seq<Seq<(Seq<char>, RecordValueView)>>, i: int)
    requires
        0 <= i <= records.len(),
        items_of_records(records.take(i)) is None,
    ensures
        items_of_records(records) is None,
    decreases records.len(),
{
    if i < records.len() {
        assert(records.drop_last().take(i) =~= records.take(i));
        lemma_items_refused(records.drop_last(), i);
    } else {
        assert(records.take(i) =~= records);
    }
}

/// The field named `key` is the first field with that name.
pub proof fn lemma_record_field_at(fields: Seq<(Seq<char>, RecordValueView)>, key: Seq<char>, i: int)
    requires
        0 <= i < fields.len(),
        fields[i].0 == key,
        forall|j: int| 0 <= j < i ==> fields[j].0 != key,
    ensures
        record_field(fields, key) == Some(fields[i].1),
    decreases i,
{
    if i > 0 {
        lemma_record_field_at(fields.drop_first(), key, i - 1);
    }
}

/// A record has no field of a name that none of its fields has.
pub proof fn lemma_record_field_absent(fields: Seq<(Seq<char>, RecordValueView)>, key: Seq<char>)
    requires
        forall|j: int| 0 <= j < fields.len() ==> fields[j].0 != key,
    ensures
        record_field(fields, key) is None,
    decreases fields.len(),
{
    if fields.len() > 0 {
        lemma_record_field_absent(fields.drop_first(), key);
    }
}

/// Reading back what was stored: the activity page reads the record of a
/// follow, raid, subscription, resubscription or gifted sub as that same
/// event; it cannot read the record of a cheer or of a sub gift, which keep
/// their bits and total under keys that the page does not read them from.
pub proof fn lemma_record_read_back(e: AlertEventView)
    ensures
        !(e is Bits || e is GiftSub) ==> event_of_record(record_of(e)) == Some(Some(e)),
        (e is Bits || e is GiftSub) ==> event_of_record(record_of(e)) is None,
{
    reveal_strlit("type");
    assert("type"@.len() == 4 && "type"@[0] == 't' && "type"@[1] == 'y');
    reveal_strlit("follower");
    assert("follower"@.len() == 8 && "follower"@[0] == 'f' && "follower"@[1] == 'o');
    reveal_strlit("from");
    assert("from"@.len() == 4 && "from"@[0] == 'f' && "from"@[1] == 'r');
    reveal_strlit("viewers");
    assert("viewers"@.len() == 7 && "viewers"@[0] == 'v' && "viewers"@[1] == 'i');
    reveal_strlit("subscriber");
    assert("subscriber"@.len() == 10 && "subscriber"@[0] == 's' && "subscriber"@[1] == 'u');
    reveal_strlit("tier");
    assert("tier"@.len() == 4 && "tier"@[0] == 't' && "tier"@[1] == 'i');
    reveal_strlit("subscribed_for");
    assert("subscribed_for"@.len() == 14 && "subscribed_for"@[0] == 's' && "subscribed_for"@[1] == 'u');
    reveal_strlit("streak");
    assert("streak"@.len() == 6 && "streak"@[0] == 's' && "streak"@[1] == 't');
    reveal_strlit("gifter");
    assert("gifter"@.len() == 6 && "gifter"@[0] == 'g' && "gifter"@[1] == 'i');
    reveal_strlit("total");
    assert("total"@.len() == 5 && "total"@[0] == 't' && "total"@[1] == 'o');
    reveal_strlit("gifted");
    assert("gifted"@.len() == 6 && "gifted"@[0] == 'g' && "gifted"@[1] == 'i');
    reveal_strlit("cheerer");
    assert("cheerer"@.len() == 7 && "cheerer"@[0] == 'c' && "cheerer"@[1] == 'h');
    reveal_strlit("bits");
    assert("bits"@.len() == 4 && "bits"@[0] == 'b' && "bits"@[1] == 'i');
    reveal_strlit("message");
    assert("message"@.len() == 7 && "message"@[0] == 'm' && "message"@[1] == 'e');
    reveal_strlit("is_anonymous");
    assert("is_anonymous"@.len() == 12 && "is_anonymous"@[0] == 'i' && "is_anonymous"@[1] == 's');
    reveal_strlit("Follow");
    assert("Follow"@.len() == 6 && "Follow"@[0] == 'F' && "Follow"@[1] == 'o');
    reveal_strlit("Raid");
    assert("Raid"@.len() == 4 && "Raid"@[0] == 'R' && "Raid"@[1] == 'a');
    reveal_strlit("Subscribe");
    assert("Subscribe"@.len() == 9 && "Subscribe"@[0] == 'S' && "Subscribe"@[1] == 'u');
    reveal_strlit("ReSubscribe");
    assert("ReSubscribe"@.len() == 11 && "ReSubscribe"@[0] == 'R' && "ReSubscribe"@[1] == 'e');
    reveal_strlit("GiftSub");
    assert("GiftSub"@.len() == 7 && "GiftSub"@[0] == 'G' && "GiftSub"@[1] == 'i');
    reveal_strlit("GiftedSub");
    assert("GiftedSub"@.len() == 9 && "GiftedSub"@[0] == 'G' && "GiftedSub"@[1] == 'i');
    reveal_strlit("Bits");
    assert("Bits"@.len() == 4 && "Bits"@[0] == 'B' && "Bits"@[1] == 'i');
    let r = record_of(e);
    lemma_record_field_at(r, "type"@, 0);
    match e {
        AlertEventView::Follow { .. } => {
            lemma_record_field_at(r, "follower"@, 1);
        },
        AlertEventView::Raid { .. } => {
            lemma_record_field_at(r, "from"@, 1);
            lemma_record_field_at(r, "viewers"@, 2);
        },
        AlertEventView::Subscribe { .. } => {
            lemma_record_field_at(r, "subscriber"@, 1);
            lemma_record_field_at(r, "tier"@, 2);
        },
        AlertEventView::ReSubscribe { .. } => {
            lemma_record_field_at(r, "subscriber"@, 1);
            lemma_record_field_at(r, "tier"@, 2);
            lemma_record_field_at(r, "subscribed_for"@, 3);
            lemma_record_field_at(r, "streak"@, 4);
        },
        AlertEventView::GiftSub { .. } => {
            lemma_record_field_absent(r, "message"@);
        },
        AlertEventView::GiftedSub { .. } => {
            lemma_record_field_at(r, "gifted"@, 1);
            lemma_record_field_at(r, "tier"@, 2);
        },
        AlertEventView::Bits { .. } => {
            lemma_record_field_absent(r, "viewers"@);
        },
    }
}

} // verus!
