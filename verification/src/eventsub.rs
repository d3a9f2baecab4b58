//! EventSub: what the bot does with each message of the EventSub
//! websocket (welcome, notification, reconnect, keepalive), the
//! subscriptions it asks for, and the files that record recent events.

use vstd::prelude::*;

use crate::alert::{AlertEventType, AlertEventView};
use crate::json::{
    bool_of, field_in, is_object, json_bool, json_in, json_is_object, json_node, json_str, json_u64,
    parse_json, str_of, u64_of,
};
use crate::text;
use crate::text::{chars_of, contains_exec, str_eq, string_of};
use crate::twitch::{TwitchApiResponse, TwitchChannelInfo};

verus! {

/// The view of an optional string.
pub open spec fn opt_str(s: Option<String>) -> Option<Seq<char>> {
    match s {
        Some(v) => Some(v@),
        None => None,
    }
}

/// The session object of a welcome message.
#[derive(Debug)]
pub struct SessionInfo {
    pub status: Option<String>,
    pub id: Option<String>,
}

/// The fields of a notification's event that the bot reads.
#[derive(Debug)]
pub struct EventFields {
    pub user_name: Option<String>,
    pub from_broadcaster_user_name: Option<String>,
    pub viewers: Option<u64>,
    pub tier: Option<String>,
    pub total: Option<u64>,
    pub is_gift: Option<bool>,
    pub cumulative_months: Option<u64>,
    pub streak_months: Option<u64>,
    pub message: Option<String>,
    pub is_anonymous: Option<bool>,
    pub bits: Option<u64>,
    pub reward_title: Option<String>,
}

/// What the bot reads of one EventSub message: `metadata.message_type`,
/// `payload.session` (its `reconnect_url`, `status` and `id`),
/// `payload.subscription.type`, `payload.event` and `payload.reconnect_url`.
#[derive(Debug)]
pub struct EventSubMessage {
    pub message_type: Option<String>,
    pub session_reconnect_url: Option<String>,
    pub session: Option<SessionInfo>,
    pub subscription_type: Option<String>,
    pub event: EventFields,
    pub reconnect_url: Option<String>,
}

/// What the bot reads of the EventSub message `raw`, as the fields of `m`:
/// each is the string, number or truth value at its path of the JSON
/// object, none where the path does not lead to one; `session` is there
/// when `payload.session` is an object.
pub open spec fn message_read(raw: Seq<char>, m: &EventSubMessage) -> bool {
    let payload = json_in(Some(raw), "payload"@);
    let session = json_in(payload, "session"@);
    let event = json_in(payload, "event"@);
    &&& opt_str(m.message_type) == json_str(json_in(json_in(Some(raw), "metadata"@), "message_type"@))
    &&& opt_str(m.session_reconnect_url) == json_str(json_in(session, "reconnect_url"@))
    &&& match m.session {
        Some(s) => {
            &&& json_is_object(session)
            &&& opt_str(s.status) == json_str(json_in(session, "status"@))
            &&& opt_str(s.id) == json_str(json_in(session, "id"@))
        },
        None => !json_is_object(session),
    }
    &&& opt_str(m.subscription_type) == json_str(json_in(json_in(payload, "subscription"@), "type"@))
    &&& opt_str(m.event.user_name) == json_str(json_in(event, "user_name"@))
    &&& opt_str(m.event.from_broadcaster_user_name) == json_str(
        json_in(event, "from_broadcaster_user_name"@),
    )
    &&& m.event.viewers == json_u64(json_in(event, "viewers"@))
    &&& opt_str(m.event.tier) == json_str(json_in(event, "tier"@))
    &&& m.event.total == json_u64(json_in(event, "total"@))
    &&& m.event.is_gift == json_bool(json_in(event, "is_gift"@))
    &&& m.event.cumulative_months == json_u64(json_in(event, "cumulative_months"@))
    &&& m.event.streak_months == json_u64(json_in(event, "streak_months"@))
    &&& opt_str(m.event.message) == json_str(json_in(event, "message"@))
    &&& m.event.is_anonymous == json_bool(json_in(event, "is_anonymous"@))
    &&& m.event.bits == json_u64(json_in(event, "bits"@))
    &&& opt_str(m.event.reward_title) == json_str(json_in(json_in(event, "reward"@), "title"@))
    &&& opt_str(m.reconnect_url) == json_str(json_in(payload, "reconnect_url"@))
}

/// Reads an EventSub message (see `message_read`); none when `raw` is not
/// JSON.
pub fn eventsub_message(raw: &str) -> (r: Option<EventSubMessage>)
    ensures
        match json_node(raw@) {
            Some(_) => r matches Some(m) && message_read(raw@, &m),
            None => r is None,
        },
{
    if parse_json(raw).is_none() {
        return None;
    }
    let top = Some(String::from_str(raw));
    let payload = field_in(&top, "payload");
    let session = field_in(&payload, "session");
    let event = field_in(&payload, "event");
    let session_info = if is_object(&session) {
        Some(
            SessionInfo {
                status: str_of(&field_in(&session, "status")),
                id: str_of(&field_in(&session, "id")),
            },
        )
    } else {
        None
    };
    let m = EventSubMessage {
        message_type: str_of(&field_in(&field_in(&top, "metadata"), "message_type")),
        session_reconnect_url: str_of(&field_in(&session, "reconnect_url")),
        session: session_info,
        subscription_type: str_of(&field_in(&field_in(&payload, "subscription"), "type")),
        event: EventFields {
            user_name: str_of(&field_in(&event, "user_name")),
            from_broadcaster_user_name: str_of(&field_in(&event, "from_broadcaster_user_name")),
            viewers: u64_of(&field_in(&event, "viewers")),
            tier: str_of(&field_in(&event, "tier")),
            total: u64_of(&field_in(&event, "total")),
            is_gift: bool_of(&field_in(&event, "is_gift")),
            cumulative_months: u64_of(&field_in(&event, "cumulative_months")),
            streak_months: u64_of(&field_in(&event, "streak_months")),
            message: str_of(&field_in(&event, "message")),
            is_anonymous: bool_of(&field_in(&event, "is_anonymous")),
            bits: u64_of(&field_in(&event, "bits")),
            reward_title: str_of(&field_in(&field_in(&event, "reward"), "title")),
        },
        reconnect_url: str_of(&field_in(&payload, "reconnect_url")),
    };
    Some(m)
}

/// What the bot remembers between messages of one connection: the stream
/// it announced and the announcement's message id.
#[derive(Debug)]
pub struct EventSubState {
    pub title: String,
    pub game_name: String,
    pub discord_msg_id: String,
}

/// Something to do for an EventSub message.
#[derive(Debug)]
pub enum EventSubAction {
    /// Close every connection but the newest one.
    DropOldConnections,
    /// Subscribe to the channel's events for this session id.
    Subscribe(String),
    /// Fetch the stream that just started and announce it.
    StreamOnline,
    /// Edit the announcement of the stream that ended.
    StreamOffline { title: String, game_name: String, discord_msg_id: String },
    /// Record the latest event of a kind in its file.
    WriteRecent { kind: String, name: String },
    /// Store the event and show its alert; a failure to show it is an error
    /// when `required`, else only logged.
    Alert { alert: AlertEventType, required: bool },
    /// Open a connection to this URL.
    Connect(String),
}

/// An action as values.
pub enum EventSubActionView {
    DropOldConnections,
    Subscribe(Seq<char>),
    StreamOnline,
    StreamOffline { title: Seq<char>, game_name: Seq<char>, discord_msg_id: Seq<char> },
    WriteRecent { kind: Seq<char>, name: Seq<char> },
    Alert { alert: AlertEventView, required: bool },
    Connect(Seq<char>),
}

impl View for EventSubAction {
    type V = EventSubActionView;

    open spec fn view(&self) -> EventSubActionView {
        match self {
            EventSubAction::DropOldConnections => EventSubActionView::DropOldConnections,
            EventSubAction::Subscribe(id) => EventSubActionView::Subscribe(id@),
            EventSubAction::StreamOnline => EventSubActionView::StreamOnline,
            EventSubAction::StreamOffline { title, game_name, discord_msg_id } =>
                EventSubActionView::StreamOffline {
                title: title@,
                game_name: game_name@,
                discord_msg_id: discord_msg_id@,
            },
            EventSubAction::WriteRecent { kind, name } => EventSubActionView::WriteRecent {
                kind: kind@,
                name: name@,
            },
            EventSubAction::Alert { alert, required } => EventSubActionView::Alert {
                alert: alert@,
                required: *required,
            },
            EventSubAction::Connect(url) => EventSubActionView::Connect(url@),
        }
    }
}

/// The views of a list of actions.
pub open spec fn actions_view(actions: Seq<EventSubAction>) -> Seq<EventSubActionView> {
    actions.map_values(|a: EventSubAction| a@)
}

/// A tier as the alerts show it: `Prime`, or the first character of the
/// tier code (`1000` is tier `1`).
pub open spec fn short_tier(tier: Seq<char>) -> Seq<char> {
    if tier == "Prime"@ {
        tier
    } else {
        seq![tier[0]]
    }
}

/// The type `t` is a notification type the bot handles, and the fields
/// that its handling reads are present.
pub open spec fn notification_fields_present(e: &EventFields, t: Seq<char>) -> bool {
    if t == "stream.online"@ || t == "stream.offline"@ {
        true
    } else if t == "channel.follow"@ {
        e.user_name is Some
    } else if t == "channel.raid"@ {
        e.from_broadcaster_user_name is Some && e.viewers is Some
    } else if t == "channel.subscribe"@ {
        e.user_name is Some && e.tier is Some && e.tier->0@.len() > 0
    } else if t == "channel.subscription.message"@ {
        e.user_name is Some && e.tier is Some && e.tier->0@.len() > 0
            && e.cumulative_months is Some && e.streak_months is Some
    } else if t == "channel.subscription.gift"@ {
        e.user_name is Some && e.tier is Some && e.tier->0@.len() > 0 && e.total is Some
    } else if t == "channel.cheer"@ {
        e.message is Some && e.is_anonymous is Some && e.user_name is Some && e.bits is Some
    } else if t == "channel.channel_points_custom_reward_redemption.add"@ {
        e.user_name is Some && e.reward_title is Some
    } else {
        false
    }
}

/// A welcome whose session is connected carries the session id.
pub open spec fn welcome_complete(msg: &EventSubMessage) -> bool {
    msg.session matches Some(s) ==> (opt_str(s.status) == Some("connected"@) ==> s.id is Some)
}

/// A notification with a subscription type has the fields its handling reads.
pub open spec fn notification_complete(msg: &EventSubMessage) -> bool {
    msg.subscription_type matches Some(t) ==> notification_fields_present(&msg.event, t@)
}

/// An EventSub message that the bot can handle: its type and, for a
/// notification, its subscription type are known, and the fields that
/// the handling reads are present.
pub open spec fn handled_message(msg: &EventSubMessage) -> bool {
    match msg.message_type {
        None => false,
        Some(t) => if t@ == "session_welcome"@ {
            welcome_complete(msg)
        } else if t@ == "notification"@ {
            notification_complete(msg)
        } else {
            t@ == "session_reconnect"@ || t@ == "session_keepalive"@
        },
    }
}

/// What the bot does for a notification of type `t`.
pub open spec fn notification_actions(
    state: &EventSubState,
    e: &EventFields,
    t: Seq<char>,
) -> Seq<EventSubActionView> {
    if t == "stream.online"@ {
        seq![EventSubActionView::StreamOnline]
    } else if t == "stream.offline"@ {
        if state.title@.len() == 0 || state.game_name@.len() == 0 {
            Seq::empty()
        } else {
            seq![
                EventSubActionView::StreamOffline {
                    title: state.title@,
                    game_name: state.game_name@,
                    discord_msg_id: state.discord_msg_id@,
                },
            ]
        }
    } else if t == "channel.follow"@ {
        let follower = e.user_name->0@;
        seq![
            EventSubActionView::WriteRecent { kind: "follow"@, name: follower },
            EventSubActionView::Alert {
                alert: AlertEventView::Follow { follower },
                required: false,
            },
        ]
    } else if t == "channel.raid"@ {
        let from = e.from_broadcaster_user_name->0@;
        seq![
            EventSubActionView::WriteRecent { kind: "raid"@, name: from },
            EventSubActionView::Alert {
                alert: AlertEventView::Raid { from, viewers: e.viewers->0 },
                required: true,
            },
        ]
    } else if t == "channel.subscribe"@ {
        let subscriber = e.user_name->0@;
        let recent = seq![EventSubActionView::WriteRecent { kind: "sub"@, name: subscriber }];
        if e.is_gift == Some(true) {
            recent.push(
                EventSubActionView::Alert {
                    alert: AlertEventView::GiftedSub {
                        gifted: subscriber,
                        tier: short_tier(e.tier->0@),
                    },
                    required: true,
                },
            )
        } else {
            recent
        }
    } else if t == "channel.subscription.message"@ {
        let subscriber = e.user_name->0@;
        let tier = seq![e.tier->0@[0]];
        let months = e.cumulative_months->0;
        let alert = if months > 1 {
            AlertEventView::ReSubscribe {
                subscriber,
                tier,
                subscribed_for: months,
                streak: e.streak_months->0,
            }
        } else {
            AlertEventView::Subscribe { subscriber, tier }
        };
        seq![
            EventSubActionView::WriteRecent { kind: "sub"@, name: subscriber },
            EventSubActionView::WriteRecent { kind: "sub"@, name: subscriber },
            EventSubActionView::Alert { alert, required: true },
        ]
    } else if t == "channel.subscription.gift"@ {
        seq![
            EventSubActionView::Alert {
                alert: AlertEventView::GiftSub {
                    gifter: e.user_name->0@,
                    total: e.total->0,
                    tier: short_tier(e.tier->0@),
                },
                required: true,
            },
        ]
    } else if t == "channel.cheer"@ {
        seq![
            EventSubActionView::Alert {
                alert: AlertEventView::Bits {
                    message: e.message->0@,
                    is_anonymous: e.is_anonymous->0,
                    cheerer: e.user_name->0@,
                    bits: e.bits->0,
                },
                required: true,
            },
        ]
    } else {
        Seq::empty()
    }
}

/// What the bot does for one EventSub message: a welcome that carries a
/// reconnect URL retires the old connections, and a connected session is
/// subscribed to; a notification is handled by its type; a reconnect opens
/// a connection to the new URL; a keepalive needs nothing.
pub open spec fn message_actions(state: &EventSubState, msg: &EventSubMessage) -> Seq<
    EventSubActionView,
> {
    let t = msg.message_type->0@;
    if t == "session_welcome"@ {
        let drop = if msg.session_reconnect_url is Some {
            seq![EventSubActionView::DropOldConnections]
        } else {
            Seq::empty()
        };
        match &msg.session {
            Some(s) => if opt_str(s.status) == Some("connected"@) {
                drop.push(EventSubActionView::Subscribe(s.id->0@))
            } else {
                drop
            },
            None => drop,
        }
    } else if t == "notification"@ {
        match &msg.subscription_type {
            Some(st) => notification_actions(state, &msg.event, st@),
            None => Seq::empty(),
        }
    } else if t == "session_reconnect"@ {
        match &msg.reconnect_url {
            Some(url) => seq![EventSubActionView::Connect(url@)],
            None => Seq::empty(),
        }
    } else {
        Seq::empty()
    }
}

/// Whether an optional string holds exactly `lit`.
fn opt_is(s: &Option<String>, lit: &str) -> (b: bool)
    ensures
        b == (opt_str(*s) == Some(lit@)),
{
    match s {
        Some(v) => str_eq(v.as_str(), lit),
        None => false,
    }
}

/// Whether the text of a frame says the connection went unused.
pub fn connection_unused(raw: &str) -> (b: bool)
    ensures
        b == text::contains(raw@, "connection unused"@),
{
    let chars = chars_of(raw);
    let pat = chars_of("connection unused");
    contains_exec(&chars, &pat)
}

/// The tier as the alerts show it (see `short_tier`).
fn short_tier_exec(tier: &String) -> (r: String)
    requires
        tier@.len() > 0,
    ensures
        r@ == short_tier(tier@),
{
    if str_eq(tier.as_str(), "Prime") {
        tier.clone()
    } else {
        let chars = chars_of(tier.as_str());
        string_of(&chars, 0, 1)
    }
}

/// The first character of a non-empty string.
fn first_char_string(s: &String) -> (r: String)
    requires
        s@.len() > 0,
    ensures
        r@ == seq![s@[0]],
{
    let chars = chars_of(s.as_str());
    let r = string_of(&chars, 0, 1);
    assert(r@ =~= seq![s@[0]]);
    r
}

/// A copy of a string that is present.
fn present(s: &Option<String>) -> (r: String)
    requires
        s is Some,
    ensures
        r@ == s->0@,
{
    match s {
        Some(v) => v.clone(),
        None => String::new(),
    }
}

/// The actions for a notification of type `t`.
fn notification_step(state: &EventSubState, e: &EventFields, t: &String) -> (r: Vec<
    EventSubAction,
>)
    requires
        notification_fields_present(e, t@),
    ensures
        actions_view(r@) == notification_actions(state, e, t@),
{
    let mut r: Vec<EventSubAction> = Vec::new();
    let t = t.as_str();
    if str_eq(t, "stream.online") {
        r.push(EventSubAction::StreamOnline);
    } else if str_eq(t, "stream.offline") {
        if !state.title.as_str().is_empty() && !state.game_name.as_str().is_empty() {
            r.push(
                EventSubAction::StreamOffline {
                    title: state.title.clone(),
                    game_name: state.game_name.clone(),
                    discord_msg_id: state.discord_msg_id.clone(),
                },
            );
        }
    } else if str_eq(t, "channel.follow") {
        let follower = present(&e.user_name);
        r.push(
            EventSubAction::WriteRecent { kind: String::from_str("follow"), name: follower.clone() },
        );
        r.push(
            EventSubAction::Alert { alert: AlertEventType::Follow { follower }, required: false },
        );
    } else if str_eq(t, "channel.raid") {
        let from = present(&e.from_broadcaster_user_name);
        let viewers = match e.viewers {
            Some(v) => v,
            None => 0,
        };
        r.push(EventSubAction::WriteRecent { kind: String::from_str("raid"), name: from.clone() });
        r.push(
            EventSubAction::Alert { alert: AlertEventType::Raid { from, viewers }, required: true },
        );
    } else if str_eq(t, "channel.subscribe") {
        let subscriber = present(&e.user_name);
        r.push(
            EventSubAction::WriteRecent { kind: String::from_str("sub"), name: subscriber.clone() },
        );
        if e.is_gift == Some(true) {
            let tier = match &e.tier {
                Some(tier) => short_tier_exec(tier),
                None => String::new(),
            };
            r.push(
                EventSubAction::Alert {
                    alert: AlertEventType::GiftedSub { gifted: subscriber, tier },
                    required: true,
                },
            );
        }
    } else if str_eq(t, "channel.subscription.message") {
        let subscriber = present(&e.user_name);
        let tier = match &e.tier {
            Some(tier) => first_char_string(tier),
            None => String::new(),
        };
        let months = match e.cumulative_months {
            Some(m) => m,
            None => 0,
        };
        let streak = match e.streak_months {
            Some(m) => m,
            None => 0,
        };
        r.push(
            EventSubAction::WriteRecent { kind: String::from_str("sub"), name: subscriber.clone() },
        );
        r.push(
            EventSubAction::WriteRecent { kind: String::from_str("sub"), name: subscriber.clone() },
        );
        let alert = if months > 1 {
            AlertEventType::ReSubscribe { subscriber, tier, subscribed_for: months, streak }
        } else {
            AlertEventType::Subscribe { subscriber, tier }
        };
        r.push(EventSubAction::Alert { alert, required: true });
    } else if str_eq(t, "channel.subscription.gift") {
        let gifter = present(&e.user_name);
        let tier = match &e.tier {
            Some(tier) => short_tier_exec(tier),
            None => String::new(),
        };
        let total = match e.total {
            Some(v) => v,
            None => 0,
        };
        r.push(
            EventSubAction::Alert {
                alert: AlertEventType::GiftSub { gifter, total, tier },
                required: true,
            },
        );
    } else if str_eq(t, "channel.cheer") {
        let message = present(&e.message);
        let cheerer = present(&e.user_name);
        let is_anonymous = match e.is_anonymous {
            Some(b) => b,
            None => false,
        };
        let bits = match e.bits {
            Some(b) => b,
            None => 0,
        };
        r.push(
            EventSubAction::Alert {
                alert: AlertEventType::Bits { message, is_anonymous, cheerer, bits },
                required: true,
            },
        );
    }
    assert(actions_view(r@) =~= notification_actions(state, e, t@));
    r
}

/// A cheer is shown as it came: the one action for a `channel.cheer`
/// notification is a required cheer alert whose cheerer is the event's
/// `user_name`, whose message is the event's `message`, and whose
/// anonymity and bits are the event's own.
pub proof fn lemma_cheer_alert(state: &EventSubState, msg: &EventSubMessage)
    requires
        opt_str(msg.message_type) == Some("notification"@),
        opt_str(msg.subscription_type) == Some("channel.cheer"@),
        msg.event.user_name is Some,
        msg.event.message is Some,
        msg.event.is_anonymous is Some,
        msg.event.bits is Some,
    ensures
        message_actions(state, msg).len() == 1,
        message_actions(state, msg)[0] matches EventSubActionView::Alert {
            alert: AlertEventView::Bits { message, is_anonymous, cheerer, bits },
            required,
        } && required && cheerer == msg.event.user_name->0@ && message == msg.event.message->0@
            && is_anonymous == msg.event.is_anonymous->0 && bits == msg.event.bits->0,
{
    reveal_strlit("notification");
    assert("notification"@.len() == 12 && "notification"@[0] == 'n' && "notification"@[8] == 't');
    reveal_strlit("session_welcome");
    assert("session_welcome"@.len() == 15 && "session_welcome"@[0] == 's' && "session_welcome"@[8] == 'w');
    reveal_strlit("session_reconnect");
    assert("session_reconnect"@.len() == 17 && "session_reconnect"@[0] == 's' && "session_reconnect"@[8] == 'r');
    reveal_strlit("stream.online");
    assert("stream.online"@.len() == 13 && "stream.online"@[0] == 's' && "stream.online"@[8] == 'n');
    reveal_strlit("stream.offline");
    assert("stream.offline"@.len() == 14 && "stream.offline"@[0] == 's' && "stream.offline"@[8] == 'f');
    reveal_strlit("channel.follow");
    assert("channel.follow"@.len() == 14 && "channel.follow"@[0] == 'c' && "channel.follow"@[8] == 'f');
    reveal_strlit("channel.raid");
    assert("channel.raid"@.len() == 12 && "channel.raid"@[0] == 'c' && "channel.raid"@[8] == 'r');
    reveal_strlit("channel.subscribe");
    assert("channel.subscribe"@.len() == 17 && "channel.subscribe"@[0] == 'c' && "channel.subscribe"@[8] == 's');
    reveal_strlit("channel.subscription.message");
    assert("channel.subscription.message"@.len() == 28 && "channel.subscription.message"@[0] == 'c' && "channel.subscription.message"@[8] == 's');
    reveal_strlit("channel.subscription.gift");
    assert("channel.subscription.gift"@.len() == 25 && "channel.subscription.gift"@[0] == 'c' && "channel.subscription.gift"@[8] == 's');
    reveal_strlit("channel.cheer");
    assert("channel.cheer"@.len() == 13 && "channel.cheer"@[0] == 'c' && "channel.cheer"@[8] == 'c');
}

/// Follows, raids and sub gifts are shown as they came: a `channel.follow`
/// writes the follower (the event's `user_name`) to the follow file and
/// shows them, optionally; a `channel.raid` writes the raiding channel
/// (`from_broadcaster_user_name`) to the raid file and shows it with the
/// event's viewers, required; a `channel.subscription.gift` shows the
/// gifter (`user_name`) with the event's total, required.
pub proof fn lemma_notification_alerts(state: &EventSubState, msg: &EventSubMessage)
    requires
        opt_str(msg.message_type) == Some("notification"@),
        msg.subscription_type is Some,
        notification_fields_present(&msg.event, msg.subscription_type->0@),
    ensures
        opt_str(msg.subscription_type) == Some("channel.follow"@) ==> message_actions(state, msg)
            == seq![
            EventSubActionView::WriteRecent { kind: "follow"@, name: msg.event.user_name->0@ },
            EventSubActionView::Alert {
                alert: AlertEventView::Follow { follower: msg.event.user_name->0@ },
                required: false,
            },
        ],
        opt_str(msg.subscription_type) == Some("channel.raid"@) ==> message_actions(state, msg)
            == seq![
            EventSubActionView::WriteRecent {
                kind: "raid"@,
                name: msg.event.from_broadcaster_user_name->0@,
            },
            EventSubActionView::Alert {
                alert: AlertEventView::Raid {
                    from: msg.event.from_broadcaster_user_name->0@,
                    viewers: msg.event.viewers->0,
                },
                required: true,
            },
        ],
        opt_str(msg.subscription_type) == Some("channel.subscription.gift"@) ==> {
            &&& message_actions(state, msg).len() == 1
            &&& message_actions(state, msg)[0] matches EventSubActionView::Alert {
                alert: AlertEventView::GiftSub { gifter, total, .. },
                required,
            } && required && gifter == msg.event.user_name->0@ && total == msg.event.total->0
        },
{
    reveal_strlit("notification");
    assert("notification"@.len() == 12 && "notification"@[0] == 'n' && "notification"@[8] == 't');
    reveal_strlit("session_welcome");
    assert("session_welcome"@.len() == 15 && "session_welcome"@[0] == 's' && "session_welcome"@[8] == 'w');
    reveal_strlit("session_reconnect");
    assert("session_reconnect"@.len() == 17 && "session_reconnect"@[0] == 's' && "session_reconnect"@[8] == 'r');
    reveal_strlit("stream.online");
    assert("stream.online"@.len() == 13 && "stream.online"@[0] == 's' && "stream.online"@[8] == 'n');
    reveal_strlit("stream.offline");
    assert("stream.offline"@.len() == 14 && "stream.offline"@[0] == 's' && "stream.offline"@[8] == 'f');
    reveal_strlit("channel.follow");
    assert("channel.follow"@.len() == 14 && "channel.follow"@[0] == 'c' && "channel.follow"@[8] == 'f');
    reveal_strlit("channel.raid");
    assert("channel.raid"@.len() == 12 && "channel.raid"@[0] == 'c' && "channel.raid"@[8] == 'r');
    reveal_strlit("channel.subscribe");
    assert("channel.subscribe"@.len() == 17 && "channel.subscribe"@[0] == 'c' && "channel.subscribe"@[8] == 's');
    reveal_strlit("channel.subscription.message");
    assert("channel.subscription.message"@.len() == 28 && "channel.subscription.message"@[0] == 'c' && "channel.subscription.message"@[8] == 's');
    reveal_strlit("channel.subscription.gift");
    assert("channel.subscription.gift"@.len() == 25 && "channel.subscription.gift"@[0] == 'c' && "channel.subscription.gift"@[8] == 's');
    reveal_strlit("channel.cheer");
    assert("channel.cheer"@.len() == 13 && "channel.cheer"@[0] == 'c' && "channel.cheer"@[8] == 'c');
    reveal_strlit("follow");
    assert("follow"@.len() == 6 && "follow"@[0] == 'f' && "follow"@[5] == 'w');
    reveal_strlit("raid");
    assert("raid"@.len() == 4 && "raid"@[0] == 'r' && "raid"@[3] == 'd');
}

/// The actions for one EventSub message (see `message_actions`).
pub fn eventsub_step(state: &EventSubState, msg: &EventSubMessage) -> (r: Vec<EventSubAction>)
    requires
        handled_message(msg),
    ensures
        actions_view(r@) == message_actions(state, msg),
{
    let t = present(&msg.message_type);
    let t = t.as_str();
    if str_eq(t, "session_welcome") {
        let mut r: Vec<EventSubAction> = Vec::new();
        if msg.session_reconnect_url.is_some() {
            r.push(EventSubAction::DropOldConnections);
        }
        match &msg.session {
            Some(s) => {
                if opt_is(&s.status, "connected") {
                    r.push(EventSubAction::Subscribe(present(&s.id)));
                }
            },
            None => {},
        }
        assert(actions_view(r@) =~= message_actions(state, msg));
        r
    } else if str_eq(t, "notification") {
        match &msg.subscription_type {
            Some(st) => notification_step(state, &msg.event, st),
            None => {
                let r: Vec<EventSubAction> = Vec::new();
                assert(actions_view(r@) =~= message_actions(state, msg));
                r
            },
        }
    } else if str_eq(t, "session_reconnect") {
        let mut r: Vec<EventSubAction> = Vec::new();
        match &msg.reconnect_url {
            Some(url) => r.push(EventSubAction::Connect(url.clone())),
            None => {},
        }
        assert(actions_view(r@) =~= message_actions(state, msg));
        r
    } else {
        let r: Vec<EventSubAction> = Vec::new();
        assert(actions_view(r@) =~= message_actions(state, msg));
        r
    }
}

/// Whether the fields that the handling of a notification of type `t`
/// reads are present (`notification_fields_present`).
fn fields_present(e: &EventFields, t: &str) -> (b: bool)
    ensures
        b == notification_fields_present(e, t@),
{
    let has_tier = match &e.tier {
        Some(tier) => tier.as_str().unicode_len() > 0,
        None => false,
    };
    if str_eq(t, "stream.online") || str_eq(t, "stream.offline") {
        true
    } else if str_eq(t, "channel.follow") {
        e.user_name.is_some()
    } else if str_eq(t, "channel.raid") {
        e.from_broadcaster_user_name.is_some() && e.viewers.is_some()
    } else if str_eq(t, "channel.subscribe") {
        e.user_name.is_some() && has_tier
    } else if str_eq(t, "channel.subscription.message") {
        e.user_name.is_some() && has_tier && e.cumulative_months.is_some()
            && e.streak_months.is_some()
    } else if str_eq(t, "channel.subscription.gift") {
        e.user_name.is_some() && has_tier && e.total.is_some()
    } else if str_eq(t, "channel.cheer") {
        e.message.is_some() && e.is_anonymous.is_some() && e.user_name.is_some()
            && e.bits.is_some()
    } else if str_eq(t, "channel.channel_points_custom_reward_redemption.add") {
        e.user_name.is_some() && e.reward_title.is_some()
    } else {
        false
    }
}

/// Whether the bot can handle an EventSub message (`handled_message`).
pub fn is_handled_message(msg: &EventSubMessage) -> (b: bool)
    ensures
        b == handled_message(msg),
{
    match &msg.message_type {
        None => false,
        Some(t) => {
            let t = t.as_str();
            if str_eq(t, "session_welcome") {
                match &msg.session {
                    Some(s) => !opt_is(&s.status, "connected") || s.id.is_some(),
                    None => true,
                }
            } else if str_eq(t, "notification") {
                match &msg.subscription_type {
                    Some(st) => fields_present(&msg.event, st.as_str()),
                    None => true,
                }
            } else {
                str_eq(t, "session_reconnect") || str_eq(t, "session_keepalive")
            }
        },
    }
}

/// The file that records the latest event of a kind, and what it holds.
pub fn recent_file(kind: &str, name: &str) -> (r: (String, String))
    ensures
        r.0@ == "recents/recent_"@ + kind@ + ".txt"@,
        r.1@ == "recent "@ + kind@ + ": "@ + name@,
{
    let mut path = String::from_str("recents/recent_");
    path.append(kind);
    path.append(".txt");
    let mut contents = String::from_str("recent ");
    contents.append(kind);
    contents.append(": ");
    contents.append(name);
    (path, contents)
}

/// The id of the channel's broadcaster.
pub open spec fn broadcaster_id() -> Seq<char> {
    "143306668"@
}

/// A subscription to ask EventSub for: its name in error reports, its
/// type and version, its condition and the websocket session to deliver to.
#[derive(Debug)]
pub struct SubscriptionRequest {
    pub name: String,
    pub sub_type: String,
    pub version: String,
    pub condition: Vec<(String, String)>,
    pub session_id: String,
}

/// A subscription request as values.
pub struct SubscriptionView {
    pub name: Seq<char>,
    pub sub_type: Seq<char>,
    pub version: Seq<char>,
    pub condition: Seq<(Seq<char>, Seq<char>)>,
    pub session_id: Seq<char>,
}

impl View for SubscriptionRequest {
    type V = SubscriptionView;

    open spec fn view(&self) -> SubscriptionView {
        SubscriptionView {
            name: self.name@,
            sub_type: self.sub_type@,
            version: self.version@,
            condition: self.condition@.map_values(|p: (String, String)| (p.0@, p.1@)),
            session_id: self.session_id@,
        }
    }
}

/// A subscription whose condition is the broadcaster id under `key`.
pub open spec fn subscription_of(
    name: Seq<char>,
    sub_type: Seq<char>,
    version: Seq<char>,
    key: Seq<char>,
    session_id: Seq<char>,
) -> SubscriptionView {
    SubscriptionView {
        name,
        sub_type,
        version,
        condition: seq![(key, broadcaster_id())],
        session_id,
    }
}

/// The subscriptions the bot asks for once a session is connected, in the
/// order it asks for them.
pub open spec fn subscriptions_for(session_id: Seq<char>) -> Seq<SubscriptionView> {
    seq![
        subscription_of("online"@, "stream.online"@, "1"@, "broadcaster_user_id"@, session_id),
        subscription_of("offline"@, "stream.offline"@, "1"@, "broadcaster_user_id"@, session_id),
        SubscriptionView {
            name: "follow"@,
            sub_type: "channel.follow"@,
            version: "2"@,
            condition: seq![
                ("broadcaster_user_id"@, broadcaster_id()),
                ("moderator_user_id"@, broadcaster_id()),
            ],
            session_id,
        },
        subscription_of("raid"@, "channel.raid"@, "1"@, "to_broadcaster_user_id"@, session_id),
        subscription_of(
            "subscribe"@,
            "channel.subscribe"@,
            "1"@,
            "broadcaster_user_id"@,
            session_id,
        ),
        subscription_of(
            "resubscribe"@,
            "channel.subscription.message"@,
            "1"@,
            "broadcaster_user_id"@,
            session_id,
        ),
        subscription_of(
            "giftsub"@,
            "channel.subscription.gift"@,
            "1"@,
            "broadcaster_user_id"@,
            session_id,
        ),
        subscription_of(
            "rewards"@,
            "channel.channel_points_custom_reward_redemption.add"@,
            "1"@,
            "broadcaster_user_id"@,
            session_id,
        ),
        subscription_of("cheers"@, "channel.cheer"@, "1"@, "broadcaster_user_id"@, session_id),
    ]
}

/// One subscription whose condition is the broadcaster id under `key`.
fn subscription(name: &str, sub_type: &str, version: &str, key: &str, session_id: &str) -> (r:
    SubscriptionRequest)
    ensures
        r@ == subscription_of(name@, sub_type@, version@, key@, session_id@),
{
    let mut condition: Vec<(String, String)> = Vec::new();
    condition.push((String::from_str(key), String::from_str("143306668")));
    let r = SubscriptionRequest {
        name: String::from_str(name),
        sub_type: String::from_str(sub_type),
        version: String::from_str(version),
        condition,
        session_id: String::from_str(session_id),
    };
    assert(r@.condition =~= seq![(key@, broadcaster_id())]);
    r
}

/// The subscriptions for a connected session (see `subscriptions_for`).
pub fn subscriptions(session_id: &str) -> (r: Vec<SubscriptionRequest>)
    ensures
        r@.map_values(|s: SubscriptionRequest| s@) == subscriptions_for(session_id@),
{
    let mut r: Vec<SubscriptionRequest> = Vec::new();
    r.push(subscription("online", "stream.online", "1", "broadcaster_user_id", session_id));
    r.push(subscription("offline", "stream.offline", "1", "broadcaster_user_id", session_id));
    let mut follow_condition: Vec<(String, String)> = Vec::new();
    follow_condition.push(
        (String::from_str("broadcaster_user_id"), String::from_str("143306668")),
    );
    follow_condition.push((String::from_str("moderator_user_id"), String::from_str("143306668")));
    let follow = SubscriptionRequest {
        name: String::from_str("follow"),
        sub_type: String::from_str("channel.follow"),
        version: String::from_str("2"),
        condition: follow_condition,
        session_id: String::from_str(session_id),
    };
    assert(follow@.condition =~= seq![
        ("broadcaster_user_id"@, broadcaster_id()),
        ("moderator_user_id"@, broadcaster_id()),
    ]);
    r.push(follow);
    r.push(subscription("raid", "channel.raid", "1", "to_broadcaster_user_id", session_id));
    r.push(
        subscription("subscribe", "channel.subscribe", "1", "broadcaster_user_id", session_id),
    );
    r.push(
        subscription(
            "resubscribe",
            "channel.subscription.message",
            "1",
            "broadcaster_user_id",
            session_id,
        ),
    );
    r.push(
        subscription(
            "giftsub",
            "channel.subscription.gift",
            "1",
            "broadcaster_user_id",
            session_id,
        ),
    );
    r.push(
        subscription(
            "rewards",
            "channel.channel_points_custom_reward_redemption.add",
            "1",
            "broadcaster_user_id",
            session_id,
        ),
    );
    r.push(subscription("cheers", "channel.cheer", "1", "broadcaster_user_id", session_id));
    assert(r@.map_values(|s: SubscriptionRequest| s@) =~= subscriptions_for(session_id@));
    r
}

/// Declares `chrono::ParseError`, the error of parsing a time.
#[verifier::external_type_specification]
#[verifier::external_body]
pub struct ExParseError(chrono::ParseError);

/// What `chrono::DateTime::parse_from_rfc3339` gives for the text `s`,
/// as seconds since the epoch: none when `s` is no RFC 3339 time.
pub uninterp spec fn rfc3339_seconds(s: Seq<char>) -> Option<int>;

/// Calls `chrono::DateTime::parse_from_rfc3339` and takes the parsed
/// time's seconds since the epoch; the outcome is a function of the text
/// alone, named `rfc3339_seconds`.
#[verifier::external_body]
fn parse_rfc3339_seconds(s: &str) -> (r: Result<i64, chrono::ParseError>)
    ensures
        match r {
            Ok(t) => rfc3339_seconds(s@) == Some(t as int),
            Err(_) => rfc3339_seconds(s@) is None,
        },
{
    match chrono::DateTime::parse_from_rfc3339(s) {
        Ok(time) => Ok(time.timestamp()),
        Err(e) => Err(e),
    }
}

/// Why a stream that went live could not be announced.
#[derive(Debug)]
pub enum StreamOnlineError {
    /// The streams endpoint listed no stream.
    NoStream,
    /// The stream's start time is no RFC 3339 time.
    StartTime,
}

/// Takes in the stream `stream` that went live, given the seconds since
/// the epoch at which it started (none when its start time did not parse):
/// its title and game are remembered and the start is returned for the
/// announcement; without a start nothing changes.
pub fn record_stream_start(
    state: &mut EventSubState,
    stream: &TwitchChannelInfo,
    start: Option<i64>,
) -> (r: Result<i64, StreamOnlineError>)
    ensures
        match start {
            Some(t) => {
                &&& r == Ok::<i64, StreamOnlineError>(t)
                &&& final(state).title@ == stream.title@
                &&& final(state).game_name@ == stream.game_name@
                &&& final(state).discord_msg_id == old(state).discord_msg_id
            },
            None => r matches Err(e) && e is StartTime && *final(state) == *old(state),
        },
{
    match start {
        Some(t) => {
            state.title = stream.title.clone();
            state.game_name = stream.game_name.clone();
            Ok(t)
        },
        None => Err(StreamOnlineError::StartTime),
    }
}

/// Takes in the stream that went live, from the reply of the streams
/// endpoint: the first stream's start time is parsed and the stream is
/// recorded (see `record_stream_start`); with no stream nothing changes.
pub fn stream_online(state: &mut EventSubState, res: &TwitchApiResponse) -> (r: Result<
    i64,
    StreamOnlineError,
>)
    ensures
        res.data@.len() == 0 ==> (r matches Err(e) && e is NoStream && *final(state) == *old(
            state,
        )),
        res.data@.len() > 0 ==> match rfc3339_seconds(res.data@[0].started_at@) {
            Some(t) => {
                &&& r == Ok::<i64, StreamOnlineError>(t as i64)
                &&& final(state).title@ == res.data@[0].title@
                &&& final(state).game_name@ == res.data@[0].game_name@
                &&& final(state).discord_msg_id == old(state).discord_msg_id
            },
            None => r matches Err(e) && e is StartTime && *final(state) == *old(state),
        },
{
    if res.data.len() == 0 {
        return Err(StreamOnlineError::NoStream);
    }
    let data = &res.data[0];
    let start = match parse_rfc3339_seconds(data.started_at.as_str()) {
        Ok(t) => Some(t),
        Err(_) => None,
    };
    record_stream_start(state, data, start)
}

} // verus!
