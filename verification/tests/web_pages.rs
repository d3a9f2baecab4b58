use sadmadbotlad::alert::{
    event_from_record, history_items, history_reply, is_history_request, stored_alerts, RecordValue,
};
use sadmadbotlad::frontend::{
    click_user, feed_line, songs_page, ActivityFeed, ClickUser, Overlay, Route, SongsPage,
};
use sadmadbotlad::song_requests::{Queue, SongRequest};
use sadmadbotlad::{Alert, AlertEventType};

fn follow(name: &str) -> AlertEventType {
    AlertEventType::Follow { follower: String::from(name) }
}

#[test]
fn routes_round_trip() {
    for r in [Route::Alerts, Route::Activity, Route::Songs, Route::Code, Route::NotFound] {
        assert_eq!(Route::recognize(r.to_path()), r);
    }
    assert_eq!(Route::Songs.to_path(), "/");
    assert_eq!(Route::recognize("/alerts"), Route::Alerts);
    assert_eq!(Route::recognize("/nowhere"), Route::NotFound);
}

#[test]
fn feed_lines_for_every_event() {
    assert_eq!(feed_line(&follow("a")), "a followed");
    assert_eq!(
        feed_line(&AlertEventType::Raid { from: String::from("b"), viewers: 10 }),
        "b raided with 10 viewers"
    );
    assert_eq!(
        feed_line(&AlertEventType::Subscribe { subscriber: String::from("c"), tier: String::from("1") }),
        "c subscribed tier 1"
    );
    assert_eq!(
        feed_line(&AlertEventType::GiftSub { gifter: String::from("d"), total: 5, tier: String::from("2") }),
        "d gifted 5 tier 2 subs"
    );
    assert_eq!(
        feed_line(&AlertEventType::ReSubscribe {
            subscriber: String::from("e"),
            tier: String::from("3"),
            subscribed_for: 9,
            streak: 4
        }),
        "e resubscribed 4 months streak"
    );
    assert_eq!(
        feed_line(&AlertEventType::ReSubscribe {
            subscriber: String::from("e"),
            tier: String::from("3"),
            subscribed_for: 9,
            streak: 1
        }),
        "e resubscribed tier 3"
    );
    assert_eq!(
        feed_line(&AlertEventType::GiftedSub { gifted: String::from("f"), tier: String::from("1") }),
        "f got gifted a tier 1 sub"
    );
    assert_eq!(
        feed_line(&AlertEventType::Bits {
            message: String::from("hi"),
            is_anonymous: true,
            cheerer: String::from("g"),
            bits: 100
        }),
        "Anonymous cheered 100 bits"
    );
    assert_eq!(
        feed_line(&AlertEventType::Bits {
            message: String::from("hi"),
            is_anonymous: false,
            cheerer: String::from("g"),
            bits: 1
        }),
        "g cheered 1 bits"
    );
}

#[test]
fn activity_feed_keeps_new_alerts_newest_first() {
    let mut feed = ActivityFeed::new();
    assert!(feed.on_event(Alert { new: true, alert_type: follow("one") }));
    assert!(!feed.on_event(Alert { new: false, alert_type: follow("replayed") }));
    assert!(feed.on_event(Alert { new: true, alert_type: follow("two") }));
    assert_eq!(feed.alerts.len(), 2);
    assert!(feed.alerts.iter().all(|a| !a.new));
    assert_eq!(feed.feed_lines(), vec!["two followed", "one followed"]);
}

#[test]
fn activity_feed_history_comes_after_live_alerts() {
    let mut feed = ActivityFeed::new();
    feed.on_event(Alert { new: true, alert_type: follow("live") });
    feed.on_history(vec![follow("old1"), follow("old2")]);
    assert!(feed.alerts.iter().all(|a| !a.new));
    assert_eq!(feed.feed_lines(), vec!["old2 followed", "old1 followed", "live followed"]);
}

#[test]
fn overlay_plays_clips_and_captions() {
    let mut o = Overlay::new();
    assert_eq!(o.video_src(), None);
    o.on_event(&Alert { new: true, alert_type: follow("fan") });
    assert_eq!(o.alert.as_deref(), Some("follow"));
    assert_eq!(o.alert_msg.as_deref(), Some("fan followed \u{1f60e}!"));
    assert_eq!(o.video_src(), Some(String::from("assets/follow.webm")));
    o.on_event(&Alert {
        new: true,
        alert_type: AlertEventType::Raid { from: String::from("r"), viewers: 3 },
    });
    assert_eq!(o.alert_msg.as_deref(), Some("r raided with 3 viewers \u{1f980}!"));
    o.on_event(&Alert {
        new: true,
        alert_type: AlertEventType::ReSubscribe {
            subscriber: String::from("s"),
            tier: String::from("1"),
            subscribed_for: 3,
            streak: 3,
        },
    });
    assert_eq!(o.alert.as_deref(), Some("sub"));
    assert_eq!(o.alert_msg.as_deref(), Some("s resubscribed with a streak of 3 months!!!"));
    o.on_event(&Alert {
        new: true,
        alert_type: AlertEventType::Bits {
            message: String::new(),
            is_anonymous: false,
            cheerer: String::from("c"),
            bits: 5,
        },
    });
    assert_eq!(o.alert_msg.as_deref(), Some("s resubscribed with a streak of 3 months!!!"));
    o.clear();
    assert_eq!(o.alert, None);
    assert_eq!(o.alert_msg, None);
}

#[test]
fn songs_page_lists_filled_slots() {
    let mut q = Queue::new();
    assert!(matches!(songs_page(&q), SongsPage::Empty));
    for n in 0..2 {
        q.enqueue(&SongRequest {
            title: format!("t{n}"),
            url: format!("u{n}"),
            id: format!("{n}"),
            user: String::from("x"),
        })
        .unwrap();
    }
    assert!(matches!(songs_page(&q), SongsPage::Empty));
    q.dequeue();
    match songs_page(&q) {
        SongsPage::Playing { current, waiting } => {
            assert_eq!(current.title, "t0");
            assert_eq!(waiting.len(), 1);
            assert_eq!(waiting[0].title, "t1");
        }
        other => panic!("unexpected {other:?}"),
    }
}

#[test]
fn history_is_newest_first_and_not_new() {
    assert!(is_history_request("db"));
    assert!(is_history_request("db please"));
    assert!(!is_history_request("{\"new\":true}"));
    let alerts = stored_alerts(&vec![follow("first"), follow("second")]);
    assert_eq!(alerts.len(), 2);
    assert!(alerts.iter().all(|a| !a.new));
    assert!(matches!(&alerts[0].alert_type, AlertEventType::Follow { follower } if follower == "second"));
    assert!(matches!(&alerts[1].alert_type, AlertEventType::Follow { follower } if follower == "first"));
}

#[test]
fn stored_records_of_events() {
    let r = AlertEventType::Bits {
        message: String::from("gg"),
        is_anonymous: true,
        cheerer: String::from("secret"),
        bits: 50,
    }
    .record();
    let names: Vec<&str> = r.iter().map(|(n, _)| n.as_str()).collect();
    assert_eq!(names, vec!["type", "cheerer", "bits", "message"]);
    assert!(matches!(&r[0].1, RecordValue::Text(t) if t == "Bits"));
    assert!(matches!(&r[1].1, RecordValue::Text(t) if t == "Anonymous"));
    assert!(matches!(&r[2].1, RecordValue::Number(50)));
    let r = AlertEventType::Raid { from: String::from("x"), viewers: 7 }.record();
    assert!(matches!(&r[0].1, RecordValue::Text(t) if t == "Raid"));
    assert!(matches!(&r[2].1, RecordValue::Number(7)));
}

#[test]
fn heat_clicks_by_user_kind() {
    assert_eq!(click_user("U123"), ClickUser::Unauthorized);
    assert_eq!(click_user("A9"), ClickUser::Anonymous);
    assert_eq!(click_user("143306668"), ClickUser::Viewer);
    assert_eq!(click_user("u"), ClickUser::Viewer);
}

#[test]
fn history_message_is_read_record_by_record() {
    let msg = r#"db::[{"type":"Follow","follower":"ana"},{"type":"Raid","from":"bo","viewers":3},{"type":"Nope"}]"#;
    let items = history_items(msg).unwrap();
    assert_eq!(items.len(), 3);
    assert!(matches!(&items[0], Some(AlertEventType::Follow { follower }) if follower == "ana"));
    assert!(matches!(&items[1], Some(AlertEventType::Raid { from, viewers: 3 }) if from == "bo"));
    assert!(items[2].is_none());
    let mut feed = ActivityFeed::new();
    feed.on_event(Alert { new: true, alert_type: follow("zed") });
    assert!(feed.on_history_message(msg));
    assert_eq!(feed.feed_lines(), vec!["bo raided with 3 viewers", "ana followed", "zed followed"]);
}

#[test]
fn history_cheers_and_gifts_are_read_from_the_page_keys() {
    let msg = r#"x::[{"type":"Bits","cheerer":"c","message":"hi","is_anonymous":false,"viewers":100},
        {"type":"GiftSub","gifter":"g","message":5,"tier":"1000"}]"#;
    let items = history_items(msg).unwrap();
    assert!(matches!(&items[0],
        Some(AlertEventType::Bits { message, is_anonymous: false, cheerer, bits: 100 })
        if message == "hi" && cheerer == "c"));
    assert!(matches!(&items[1],
        Some(AlertEventType::GiftSub { gifter, total: 5, tier }) if gifter == "g" && tier == "1000"));
}

#[test]
fn unreadable_history_leaves_the_feed_alone() {
    assert!(history_items("db[]").is_none());
    assert!(history_items("db::not json").is_none());
    assert!(history_items(r#"db::[{"type":"Follow"}]"#).is_none());
    assert!(history_items(r#"db::[{"follower":"a"}]"#).is_none());
    assert!(history_items(r#"db::[{"type":"Raid","from":"b","viewers":-1}]"#).is_none());
    assert!(history_items(r#"db::[3]"#).is_none());
    // A cheer as the bot stores it keeps its bits under `bits`, which the page does not read.
    let stored = AlertEventType::Bits {
        message: String::from("m"),
        is_anonymous: false,
        cheerer: String::from("c"),
        bits: 1,
    };
    assert!(event_from_record(&stored.record()).is_none());
    let mut feed = ActivityFeed::new();
    assert!(!feed.on_history_message("db::[{]"));
    assert!(feed.feed_lines().is_empty());
    assert_eq!(history_items("db::[]").unwrap().len(), 0);
}

#[test]
fn stored_records_are_read_back() {
    let raid = AlertEventType::Raid { from: String::from("r"), viewers: 9 };
    assert!(matches!(event_from_record(&raid.record()),
        Some(Some(AlertEventType::Raid { from, viewers: 9 })) if from == "r"));
    let fields = vec![
        (String::from("type"), RecordValue::Text(String::from("Bits"))),
        (String::from("cheerer"), RecordValue::Text(String::from("c"))),
        (String::from("message"), RecordValue::Text(String::from("m"))),
        (String::from("is_anonymous"), RecordValue::Bool(true)),
        (String::from("viewers"), RecordValue::Number(7)),
    ];
    assert!(matches!(event_from_record(&fields),
        Some(Some(AlertEventType::Bits { is_anonymous: true, bits: 7, .. }))));
}

#[test]
fn history_replies_and_replays() {
    assert_eq!(history_reply("[]"), "db::[]");
    let mut feed = ActivityFeed::new();
    feed.on_event(Alert { new: true, alert_type: follow("one") });
    feed.on_event(Alert { new: true, alert_type: follow("two") });
    let top = feed.replay(0).unwrap();
    assert!(!top.new);
    assert!(matches!(top.alert_type, AlertEventType::Follow { follower } if follower == "two"));
    assert!(matches!(feed.replay(1).unwrap().alert_type, AlertEventType::Follow { follower } if follower == "one"));
    assert!(feed.replay(2).is_none());
}
