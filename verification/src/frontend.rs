//! The web pages of the stream: their routes, the activity feed of past
//! alerts, the alert overlay and the song list.

use vstd::prelude::*;

use crate::alert::{history_items, history_items_of, Alert, AlertEventType, AlertEventView, AlertView};
use crate::song_requests::{Queue, SongRequest, SongView};
use crate::text;
use crate::text::{str_eq, u64_to_string};

verus! {

/// A page of the web front end.
#[derive(Debug, Clone, Copy, PartialEq, Eq, Structural)]
pub enum Route {
    Alerts,
    Activity,
    Songs,
    Code,
    NotFound,
}

impl Route {
    /// The path at which the page is served.
    pub open spec fn path_of(self) -> Seq<char> {
        match self {
            Route::Alerts => "/alerts"@,
            Route::Activity => "/activity"@,
            Route::Songs => "/"@,
            Route::Code => "/code"@,
            Route::NotFound => "/404"@,
        }
    }

    /// The page served at `path`: the page whose path it is, and the
    /// not-found page for every other path.
    pub open spec fn route_at(path: Seq<char>) -> Route {
        if path == "/alerts"@ {
            Route::Alerts
        } else if path == "/activity"@ {
            Route::Activity
        } else if path == "/"@ {
            Route::Songs
        } else if path == "/code"@ {
            Route::Code
        } else {
            Route::NotFound
        }
    }

    /// The path at which the page is served (see `path_of`).
    pub fn to_path(&self) -> (r: &'static str)
        ensures
            r@ == self.path_of(),
    {
        match self {
            Route::Alerts => "/alerts",
            Route::Activity => "/activity",
            Route::Songs => "/",
            Route::Code => "/code",
            Route::NotFound => "/404",
        }
    }

    /// The page served at `path` (see `route_at`).
    pub fn recognize(path: &str) -> (r: Route)
        ensures
            r == Route::route_at(path@),
    {
        if str_eq(path, "/alerts") {
            Route::Alerts
        } else if str_eq(path, "/activity") {
            Route::Activity
        } else if str_eq(path, "/") {
            Route::Songs
        } else if str_eq(path, "/code") {
            Route::Code
        } else {
            Route::NotFound
        }
    }
}

/// Every page is served at its own path: recognizing the path of a page
/// gives that page back.
pub proof fn lemma_route_round_trip(r: Route)
    ensures
        Route::route_at(r.path_of()) == r,
{
    reveal_strlit("/alerts");
    reveal_strlit("/activity");
    reveal_strlit("/");
    reveal_strlit("/code");
    reveal_strlit("/404");
    assert("/activity"@.len() != "/alerts"@.len());
    assert("/"@.len() != "/alerts"@.len() && "/"@.len() != "/activity"@.len());
    assert("/code"@.len() != "/alerts"@.len() && "/code"@.len() != "/activity"@.len()
        && "/code"@.len() != "/"@.len());
    assert("/404"@.len() != "/alerts"@.len() && "/404"@.len() != "/activity"@.len()
        && "/404"@.len() != "/"@.len() && "/404"@.len() != "/code"@.len());
}

// ---------------------------------------------------------------------------
// The activity feed
// ---------------------------------------------------------------------------

/// The line of the activity feed for an event.
pub open spec fn feed_text(e: AlertEventView) -> Seq<char> {
    match e {
        AlertEventView::Follow { follower } => follower + " followed"@,
        AlertEventView::Raid { from, viewers } => from + " raided with "@ + text::decimal(
            viewers as nat,
        ) + " viewers"@,
        AlertEventView::Subscribe { subscriber, tier } => subscriber + " subscribed tier "@ + tier,
        AlertEventView::GiftSub { gifter, total, tier } => gifter + " gifted "@ + text::decimal(
            total as nat,
        ) + " tier "@ + tier + " subs"@,
        AlertEventView::ReSubscribe { subscriber, tier, streak, .. } => if streak > 1 {
            subscriber + " resubscribed "@ + text::decimal(streak as nat) + " months streak"@
        } else {
            subscriber + " resubscribed tier "@ + tier
        },
        AlertEventView::GiftedSub { gifted, tier } => gifted + " got gifted a tier "@ + tier
            + " sub"@,
        AlertEventView::Bits { is_anonymous, cheerer, bits, .. } => if is_anonymous {
            "Anonymous cheered "@ + text::decimal(bits as nat) + " bits"@
        } else {
            cheerer + " cheered "@ + text::decimal(bits as nat) + " bits"@
        },
    }
}

/// The line of the activity feed for an event (see `feed_text`).
pub fn feed_line(e: &AlertEventType) -> (r: String)
    ensures
        r@ == feed_text(e@),
{
    let mut r = String::new();
    match e {
        AlertEventType::Follow { follower } => {
            r.append(follower.as_str());
            r.append(" followed");
        },
        AlertEventType::Raid { from, viewers } => {
            r.append(from.as_str());
            r.append(" raided with ");
            r.append(u64_to_string(*viewers).as_str());
            r.append(" viewers");
        },
        AlertEventType::Subscribe { subscriber, tier } => {
            r.append(subscriber.as_str());
            r.append(" subscribed tier ");
            r.append(tier.as_str());
        },
        AlertEventType::GiftSub { gifter, total, tier } => {
            r.append(gifter.as_str());
            r.append(" gifted ");
            r.append(u64_to_string(*total).as_str());
            r.append(" tier ");
            r.append(tier.as_str());
            r.append(" subs");
        },
        AlertEventType::ReSubscribe { subscriber, tier, streak, .. } => {
            r.append(subscriber.as_str());
            if *streak > 1 {
                r.append(" resubscribed ");
                r.append(u64_to_string(*streak).as_str());
                r.append(" months streak");
            } else {
                r.append(" resubscribed tier ");
                r.append(tier.as_str());
            }
        },
        AlertEventType::GiftedSub { gifted, tier } => {
            r.append(gifted.as_str());
            r.append(" got gifted a tier ");
            r.append(tier.as_str());
            r.append(" sub");
        },
        AlertEventType::Bits { is_anonymous, cheerer, bits, .. } => {
            if *is_anonymous {
                r.append("Anonymous cheered ");
            } else {
                r.append(cheerer.as_str());
                r.append(" cheered ");
            }
            r.append(u64_to_string(*bits).as_str());
            r.append(" bits");
        },
    }
    assert(r@ =~= feed_text(e@));
    r
}

/// The alerts that the activity feed shows, oldest first.
#[derive(Debug)]
pub struct ActivityFeed {
    pub alerts: Vec<Alert>,
}

/// The views of a list of alerts.
pub open spec fn alert_views(alerts: Seq<Alert>) -> Seq<AlertView> {
    alerts.map_values(|a: Alert| a@)
}

/// The alerts that the feed shows for the events `events`: none of them new.
pub open spec fn seen(events: Seq<AlertEventView>) -> Seq<AlertView> {
    events.map_values(|e: AlertEventView| AlertView { new: false, alert_type: e })
}

/// The events among history items, in order: an empty alert shows no line
/// in the feed and is left out.
pub open spec fn known_events(items: Seq<Option<AlertEventView>>) -> Seq<AlertEventView>
    decreases items.len(),
{
    if items.len() == 0 {
        Seq::empty()
    } else {
        match items.last() {
            Some(e) => known_events(items.drop_last()).push(e),
            None => known_events(items.drop_last()),
        }
    }
}

/// The events among history items (see `known_events`).
fn known_of(items: Vec<Option<AlertEventType>>) -> (r: Vec<AlertEventType>)
    ensures
        r@.map_values(|e: AlertEventType| e@) == known_events(crate::alert::items_view(items@)),
{
    let ghost iv = crate::alert::items_view(items@);
    let mut r: Vec<AlertEventType> = Vec::new();
    let mut i: usize = 0;
    assert(iv.take(0) =~= Seq::<Option<AlertEventView>>::empty());
    assert(r@.map_values(|e: AlertEventType| e@) =~= Seq::<AlertEventView>::empty());
    while i < items.len()
        invariant
            i <= items@.len(),
            iv == crate::alert::items_view(items@),
            r@.map_values(|e: AlertEventType| e@) == known_events(iv.take(i as int)),
        decreases items@.len() - i,
    {
        assert(iv.take(i + 1).drop_last() =~= iv.take(i as int));
        assert(iv.take(i + 1).last() == crate::alert::item_view(items@[i as int]));
        match &items[i] {
            Some(e) => {
                let ghost before = r@.map_values(|e: AlertEventType| e@);
                r.push(e.duplicate());
                assert(r@.map_values(|e: AlertEventType| e@) =~= before.push(e@));
            },
            None => {},
        }
        i = i + 1;
    }
    assert(iv.take(items@.len() as int) =~= iv);
    r
}

impl ActivityFeed {
    /// Every alert that the feed shows has been seen: none is new.
    pub open spec fn wf(&self) -> bool {
        forall|i: int| 0 <= i < self.alerts@.len() ==> !(#[trigger] self.alerts@[i]).new
    }

    /// A feed that shows nothing.
    pub fn new() -> (f: ActivityFeed)
        ensures
            f.wf(),
            f.alerts@.len() == 0,
    {
        ActivityFeed { alerts: Vec::new() }
    }

    /// Takes a live alert: a new one is kept, marked as seen, and the feed
    /// is redrawn (`true`); a replayed one is ignored (`false`).
    pub fn on_event(&mut self, alert: Alert) -> (changed: bool)
        requires
            old(self).wf(),
        ensures
            final(self).wf(),
            changed == alert.new,
            alert.new ==> alert_views(final(self).alerts@) == alert_views(old(self).alerts@).push(
                AlertView { new: false, alert_type: alert.alert_type@ },
            ),
            !alert.new ==> alert_views(final(self).alerts@) == alert_views(old(self).alerts@),
    {
        if !alert.new {
            return false;
        }
        let ghost before = alert_views(self.alerts@);
        self.alerts.push(Alert { new: false, alert_type: alert.alert_type });
        assert(alert_views(self.alerts@) =~= before.push(
            AlertView { new: false, alert_type: alert.alert_type@ },
        ));
        true
    }

    /// Takes the event history: its events are shown, as seen alerts, after
    /// the ones already in the feed.
    pub fn on_history(&mut self, events: Vec<AlertEventType>)
        requires
            old(self).wf(),
        ensures
            final(self).wf(),
            alert_views(final(self).alerts@) == alert_views(old(self).alerts@) + seen(
                events@.map_values(|e: AlertEventType| e@),
            ),
    {
        let ghost before = alert_views(self.alerts@);
        let ghost start = self.alerts@.len();
        let mut i: usize = 0;
        while i < events.len()
            invariant
                i <= events@.len(),
                start + i == self.alerts@.len(),
                forall|j: int| 0 <= j < self.alerts@.len() ==> !(#[trigger] self.alerts@[j]).new,
                alert_views(self.alerts@) == before + seen(
                    events@.take(i as int).map_values(|e: AlertEventType| e@),
                ),
            decreases events@.len() - i,
        {
            let ghost prev = alert_views(self.alerts@);
            self.alerts.push(Alert { new: false, alert_type: events[i].duplicate() });
            proof {
                assert(events@.take(i + 1).map_values(|e: AlertEventType| e@) =~= events@.take(
                    i as int,
                ).map_values(|e: AlertEventType| e@).push(events@[i as int]@));
                assert(alert_views(self.alerts@) =~= prev.push(
                    AlertView { new: false, alert_type: events@[i as int]@ },
                ));
            }
            i = i + 1;
        }
        assert(events@.take(events@.len() as int) =~= events@);
    }

    /// Takes the history message `msg`: when the page can read it (see
    /// `history_items_of`), its events are shown, as seen alerts, after the
    /// ones already in the feed (`true`); otherwise, where the page stops,
    /// the feed stays as it was (`false`).
    pub fn on_history_message(&mut self, msg: &str) -> (read: bool)
        requires
            old(self).wf(),
        ensures
            final(self).wf(),
            read == history_items_of(msg@) is Some,
            match history_items_of(msg@) {
                Some(items) => alert_views(final(self).alerts@) == alert_views(old(self).alerts@)
                    + seen(known_events(items)),
                None => alert_views(final(self).alerts@) == alert_views(old(self).alerts@),
            },
    {
        match history_items(msg) {
            Some(items) => {
                let events = known_of(items);
                self.on_history(events);
                true
            },
            None => false,
        }
    }

    /// The alert that a click on line `line` of the feed (counted from the
    /// top, newest first) sends back to be shown again: the alert as the
    /// feed keeps it; none past the last line.
    pub fn replay(&self, line: usize) -> (r: Option<Alert>)
        ensures
            match r {
                Some(a) => line < self.alerts@.len() && a@ == self.alerts@[self.alerts@.len() - 1
                    - line]@,
                None => line >= self.alerts@.len(),
            },
    {
        let n = self.alerts.len();
        if line >= n {
            return None;
        }
        let a = &self.alerts[n - 1 - line];
        Some(Alert { new: a.new, alert_type: a.alert_type.duplicate() })
    }

    /// The lines of the feed, newest first.
    pub open spec fn lines(&self) -> Seq<Seq<char>> {
        let n = self.alerts@.len();
        Seq::new(n, |i: int| feed_text(self.alerts@[n - 1 - i].alert_type@))
    }

    /// The lines of the feed, newest first (see `lines`).
    pub fn feed_lines(&self) -> (r: Vec<String>)
        ensures
            r@.map_values(|l: String| l@) == self.lines(),
    {
        let n = self.alerts.len();
        let mut r: Vec<String> = Vec::new();
        let mut i: usize = n;
        while i > 0
            invariant
                i <= n == self.alerts@.len(),
                r@.len() == n - i,
                forall|k: int|
                    0 <= k < n - i ==> (#[trigger] r@[k])@ == feed_text(
                        self.alerts@[n - 1 - k].alert_type@,
                    ),
            decreases i,
        {
            r.push(feed_line(&self.alerts[i - 1].alert_type));
            i = i - 1;
        }
        assert(r@.map_values(|l: String| l@) =~= self.lines());
        r
    }
}

// ---------------------------------------------------------------------------
// The alert overlay
// ---------------------------------------------------------------------------

/// The clip and the caption that the overlay plays for an event; a cheer
/// has none.
pub open spec fn overlay_for(e: AlertEventView) -> Option<(Seq<char>, Seq<char>)> {
    match e {
        AlertEventView::Follow { follower } => Some(
            ("follow"@, follower + " followed \u{1f60e}!"@),
        ),
        AlertEventView::Raid { from, viewers } => Some(
            (
                "raid"@,
                from + " raided with "@ + text::decimal(viewers as nat) + " viewers \u{1f980}!"@,
            ),
        ),
        AlertEventView::Subscribe { subscriber, tier } => Some(
            ("sub"@, subscriber + " subscribed with tier "@ + tier + "!"@),
        ),
        AlertEventView::GiftSub { gifter, total, tier } => Some(
            (
                "sub"@,
                gifter + " gifted "@ + text::decimal(total as nat) + " tier "@ + tier + " subs!"@,
            ),
        ),
        AlertEventView::ReSubscribe { subscriber, tier, streak, .. } => Some(
            (
                "sub"@,
                if streak > 1 {
                    subscriber + " resubscribed with a streak of "@ + text::decimal(streak as nat)
                        + " months!!!"@
                } else {
                    subscriber + " resubscribed with tier "@ + tier + "!"@
                },
            ),
        ),
        AlertEventView::GiftedSub { gifted, tier } => Some(
            ("sub"@, gifted + " got gifted a tier "@ + tier + " sub!"@),
        ),
        AlertEventView::Bits { .. } => None,
    }
}

/// A sub gift is announced with its numbers in place: the overlay plays
/// the `sub` clip, and its caption begins with the gifter, ` gifted `, the
/// number of gifted subs and ` tier `, and ends with the tier and
/// ` subs!`; the feed line is built the same way and ends with ` subs`.
pub proof fn lemma_gift_sub_texts(gifter: Seq<char>, total: u64, tier: Seq<char>)
    ensures
        ({
            let n = (gifter.len() + 14 + text::decimal(total as nat).len()) as int;
            &&& overlay_for(AlertEventView::GiftSub { gifter, total, tier }) matches Some(
                (clip, caption),
            ) && clip == "sub"@ && caption.take(n) == gifter + " gifted "@ + text::decimal(
                total as nat,
            ) + " tier "@ && caption.skip(n) == tier + " subs!"@
            &&& feed_text(AlertEventView::GiftSub { gifter, total, tier }).take(n) == gifter
                + " gifted "@ + text::decimal(total as nat) + " tier "@
            &&& feed_text(AlertEventView::GiftSub { gifter, total, tier }).skip(n) == tier
                + " subs"@
        }),
{
    reveal_strlit(" gifted ");
    reveal_strlit(" tier ");
    reveal_strlit(" subs!");
    reveal_strlit(" subs");
    let head = gifter + " gifted "@ + text::decimal(total as nat) + " tier "@;
    let caption = head + tier + " subs!"@;
    assert(caption.take(head.len() as int) =~= head);
    assert(caption.skip(head.len() as int) =~= tier + " subs!"@);
    let line = head + tier + " subs"@;
    assert(line.take(head.len() as int) =~= head);
    assert(line.skip(head.len() as int) =~= tier + " subs"@);
}

/// The person an event is about.
pub open spec fn event_person(e: AlertEventView) -> Seq<char> {
    match e {
        AlertEventView::Follow { follower } => follower,
        AlertEventView::Raid { from, .. } => from,
        AlertEventView::Subscribe { subscriber, .. } => subscriber,
        AlertEventView::ReSubscribe { subscriber, .. } => subscriber,
        AlertEventView::GiftSub { gifter, .. } => gifter,
        AlertEventView::GiftedSub { gifted, .. } => gifted,
        AlertEventView::Bits { is_anonymous, cheerer, .. } => if is_anonymous {
            "Anonymous"@
        } else {
            cheerer
        },
    }
}

/// Every feed line, and every overlay caption, begins with the person the
/// event is about (a cheer's cheerer, or `Anonymous`, in the feed); a raid
/// is told with its viewers right after ` raided with `.
pub proof fn lemma_texts_name_the_person(e: AlertEventView)
    ensures
        feed_text(e).len() >= event_person(e).len(),
        feed_text(e).take(event_person(e).len() as int) == event_person(e),
        overlay_for(e) matches Some((_, caption)) ==> caption.len() >= event_person(e).len()
            && caption.take(event_person(e).len() as int) == event_person(e),
        e matches AlertEventView::Raid { from, viewers } ==> ({
            let n = (from.len() + 13 + text::decimal(viewers as nat).len()) as int;
            &&& feed_text(e).take(n) == from + " raided with "@ + text::decimal(viewers as nat)
            &&& overlay_for(e) matches Some((clip, caption)) && clip == "raid"@ && caption.take(n)
                == from + " raided with "@ + text::decimal(viewers as nat)
        }),
{
    reveal_strlit(" raided with ");
    reveal_strlit("Anonymous");
    reveal_strlit("Anonymous cheered ");
    let p = event_person(e);
    let f = feed_text(e);
    if let AlertEventView::Bits { is_anonymous, bits, .. } = e {
        if is_anonymous {
            let rest = text::decimal(bits as nat) + " bits"@;
            assert(f == "Anonymous cheered "@ + rest);
            assert(f.take(9) =~= "Anonymous"@);
        }
    }
    assert(f.take(p.len() as int) =~= p);
    if let Some((_, caption)) = overlay_for(e) {
        assert(caption.take(p.len() as int) =~= p);
    }
    if let AlertEventView::Raid { from, viewers } = e {
        let head = from + " raided with "@ + text::decimal(viewers as nat);
        assert(f.take(head.len() as int) =~= head);
        let (_, caption) = overlay_for(e)->0;
        assert(caption.take(head.len() as int) =~= head);
    }
}

/// The view of an optional string.
pub open spec fn opt_text(s: Option<String>) -> Option<Seq<char>> {
    match s {
        Some(v) => Some(v@),
        None => None,
    }
}

/// What the overlay plays: the name of a clip and its caption, or nothing.
#[derive(Debug)]
pub struct Overlay {
    pub alert: Option<String>,
    pub alert_msg: Option<String>,
}

impl Overlay {
    /// An overlay that plays nothing.
    pub fn new() -> (o: Overlay)
        ensures
            o.alert is None,
            o.alert_msg is None,
    {
        Overlay { alert: None, alert_msg: None }
    }

    /// Takes an alert: the overlay plays the clip and caption for its event
    /// (see `overlay_for`); an event without one leaves the overlay as it
    /// was.
    pub fn on_event(&mut self, alert: &Alert)
        ensures
            match overlay_for(alert.alert_type@) {
                Some((clip, caption)) => opt_text(final(self).alert) == Some(clip) && opt_text(
                    final(self).alert_msg,
                ) == Some(caption),
                None => *final(self) == *old(self),
            },
    {
        let mut caption = String::new();
        let clip = match &alert.alert_type {
            AlertEventType::Follow { follower } => {
                caption.append(follower.as_str());
                caption.append(" followed \u{1f60e}!");
                "follow"
            },
            AlertEventType::Raid { from, viewers } => {
                caption.append(from.as_str());
                caption.append(" raided with ");
                caption.append(u64_to_string(*viewers).as_str());
                caption.append(" viewers \u{1f980}!");
                "raid"
            },
            AlertEventType::Subscribe { subscriber, tier } => {
                caption.append(subscriber.as_str());
                caption.append(" subscribed with tier ");
                caption.append(tier.as_str());
                caption.append("!");
                "sub"
            },
            AlertEventType::GiftSub { gifter, total, tier } => {
                caption.append(gifter.as_str());
                caption.append(" gifted ");
                caption.append(u64_to_string(*total).as_str());
                caption.append(" tier ");
                caption.append(tier.as_str());
                caption.append(" subs!");
                "sub"
            },
            AlertEventType::ReSubscribe { subscriber, tier, streak, .. } => {
                caption.append(subscriber.as_str());
                if *streak > 1 {
                    caption.append(" resubscribed with a streak of ");
                    caption.append(u64_to_string(*streak).as_str());
                    caption.append(" months!!!");
                } else {
                    caption.append(" resubscribed with tier ");
                    caption.append(tier.as_str());
                    caption.append("!");
                }
                "sub"
            },
            AlertEventType::GiftedSub { gifted, tier } => {
                caption.append(gifted.as_str());
                caption.append(" got gifted a tier ");
                caption.append(tier.as_str());
                caption.append(" sub!");
                "sub"
            },
            AlertEventType::Bits { .. } => {
                return ;
            },
        };
        self.alert = Some(String::from_str(clip));
        self.alert_msg = Some(caption);
    }

    /// The clip ended: the overlay plays nothing until the next alert.
    pub fn clear(&mut self)
        ensures
            final(self).alert is None,
            final(self).alert_msg is None,
    {
        self.alert = None;
        self.alert_msg = None;
    }

    /// The address of the clip that plays, if any.
    pub fn video_src(&self) -> (r: Option<String>)
        ensures
            match self.alert {
                Some(clip) => r matches Some(src) && src@ == "assets/"@ + clip@ + ".webm"@,
                None => r is None,
            },
    {
        match &self.alert {
            Some(clip) => {
                let mut src = String::from_str("assets/");
                src.append(clip.as_str());
                src.append(".webm");
                Some(src)
            },
            None => None,
        }
    }
}

// ---------------------------------------------------------------------------
// The song list
// ---------------------------------------------------------------------------

/// The songs in the filled slots of `slots`, in slot order.
pub open spec fn filled(slots: Seq<Option<SongRequest>>) -> Seq<SongView>
    decreases slots.len(),
{
    if slots.len() == 0 {
        Seq::empty()
    } else {
        let rest = filled(slots.drop_last());
        match slots.last() {
            Some(song) => rest.push(song@),
            None => rest,
        }
    }
}

/// What the song page shows.
#[derive(Debug)]
pub enum SongsPage {
    /// No song plays: the page says that the queue is empty.
    Empty,
    /// The song that plays and the songs in the queue's filled slots.
    Playing { current: SongRequest, waiting: Vec<SongRequest> },
}

/// What the song page shows for `queue`: a current song and every filled
/// slot, or an empty queue when no song plays.
pub fn songs_page(queue: &Queue) -> (r: SongsPage)
    ensures
        match queue.current_song {
            Some(song) => r matches SongsPage::Playing { current, waiting } && current@ == song@
                && waiting@.map_values(|s: SongRequest| s@) == filled(queue.queue@),
            None => r is Empty,
        },
{
    match &queue.current_song {
        None => SongsPage::Empty,
        Some(song) => {
            let mut waiting: Vec<SongRequest> = Vec::new();
            let mut i: usize = 0;
            assert(queue.queue@.take(0) =~= Seq::<Option<SongRequest>>::empty());
            while i < 20
                invariant
                    i <= 20,
                    queue.queue@.len() == 20,
                    waiting@.map_values(|s: SongRequest| s@) == filled(
                        queue.queue@.take(i as int),
                    ),
                decreases 20 - i,
            {
                let ghost before = waiting@.map_values(|s: SongRequest| s@);
                proof {
                    let taken = queue.queue@.take(i + 1);
                    assert(taken.drop_last() =~= queue.queue@.take(i as int));
                    assert(taken.last() == queue.queue@[i as int]);
                }
                match &queue.queue[i] {
                    Some(s) => {
                        waiting.push(s.duplicate());
                        assert(waiting@.map_values(|s: SongRequest| s@) =~= before.push(s@));
                    },
                    None => {},
                }
                i = i + 1;
            }
            assert(queue.queue@.take(20) =~= queue.queue@);
            SongsPage::Playing { current: song.duplicate(), waiting }
        },
    }
}

// ---------------------------------------------------------------------------
// Heat-map clicks
// ---------------------------------------------------------------------------

/// Who clicked on the stream, by the first character of the click's user id.
#[derive(Debug, PartialEq, Eq, Structural)]
pub enum ClickUser {
    /// `U`: a viewer who did not share their identity.
    Unauthorized,
    /// `A`: a viewer who is not logged in.
    Anonymous,
    /// Any other id: a viewer whose details can be looked up.
    Viewer,
}

/// Who clicked, for a user id that starts with a one-byte character.
pub fn click_user(id: &str) -> (r: ClickUser)
    requires
        id@.len() > 0,
        (id@[0] as u32) < 128,
    ensures
        r == (if id@[0] == 'U' {
            ClickUser::Unauthorized
        } else if id@[0] == 'A' {
            ClickUser::Anonymous
        } else {
            ClickUser::Viewer
        }),
{
    let first = id.get_char(0);
    if first == 'U' {
        ClickUser::Unauthorized
    } else if first == 'A' {
        ClickUser::Anonymous
    } else {
        ClickUser::Viewer
    }
}

} // verus!
