use sadmadbotlad::alert::AlertEventType;
use sadmadbotlad::eventsub::{
    connection_unused, eventsub_message, eventsub_step, is_handled_message, recent_file, record_stream_start,
    stream_online, subscriptions, EventFields, EventSubAction, EventSubMessage, EventSubState,
    SessionInfo, StreamOnlineError,
};
use sadmadbotlad::twitch::{TwitchApiResponse, TwitchChannelInfo};

fn no_fields() -> EventFields {
    EventFields {
        user_name: None,
        from_broadcaster_user_name: None,
        viewers: None,
        tier: None,
        total: None,
        is_gift: None,
        cumulative_months: None,
        streak_months: None,
        message: None,
        is_anonymous: None,
        bits: None,
        reward_title: None,
    }
}

fn notification(sub_type: &str, event: EventFields) -> EventSubMessage {
    EventSubMessage {
        message_type: Some(String::from("notification")),
        session_reconnect_url: None,
        session: None,
        subscription_type: Some(String::from(sub_type)),
        event,
        reconnect_url: None,
    }
}

fn state() -> EventSubState {
    EventSubState {
        title: String::from("Coding"),
        game_name: String::from("Rust"),
        discord_msg_id: String::from("42"),
    }
}

fn stream(started_at: &str) -> TwitchChannelInfo {
    TwitchChannelInfo {
        id: String::from("1"),
        user_id: String::from("143306668"),
        title: String::from("New title"),
        game_name: String::from("Software and Game Development"),
        started_at: String::from(started_at),
        user_login: String::from("sadmadladsalman"),
        user_name: String::from("SadMadLadSalMaN"),
        stream_type: String::from("live"),
        viewer_count: 3,
        game_id: String::from("1469308723"),
        language: String::from("en"),
        thumbnail_url: String::new(),
        tag_ids: None,
        is_mature: false,
    }
}

#[test]
fn welcome_retires_old_connections_and_subscribes() {
    let msg = EventSubMessage {
        message_type: Some(String::from("session_welcome")),
        session_reconnect_url: Some(String::from("wss://x")),
        session: Some(SessionInfo {
            status: Some(String::from("connected")),
            id: Some(String::from("sess")),
        }),
        subscription_type: None,
        event: no_fields(),
        reconnect_url: None,
    };
    assert!(is_handled_message(&msg));
    let actions = eventsub_step(&state(), &msg);
    assert_eq!(actions.len(), 2);
    assert!(matches!(actions[0], EventSubAction::DropOldConnections));
    match &actions[1] {
        EventSubAction::Subscribe(id) => assert_eq!(id, "sess"),
        other => panic!("unexpected {other:?}"),
    }
}

#[test]
fn connected_welcome_without_session_id_is_not_handled() {
    let msg = EventSubMessage {
        message_type: Some(String::from("session_welcome")),
        session_reconnect_url: None,
        session: Some(SessionInfo { status: Some(String::from("connected")), id: None }),
        subscription_type: None,
        event: no_fields(),
        reconnect_url: None,
    };
    assert!(!is_handled_message(&msg));
}

#[test]
fn follow_is_recorded_and_shown() {
    let mut e = no_fields();
    e.user_name = Some(String::from("fan"));
    let msg = notification("channel.follow", e);
    assert!(is_handled_message(&msg));
    let actions = eventsub_step(&state(), &msg);
    assert_eq!(actions.len(), 2);
    match &actions[0] {
        EventSubAction::WriteRecent { kind, name } => {
            assert_eq!(kind, "follow");
            assert_eq!(name, "fan");
        }
        other => panic!("unexpected {other:?}"),
    }
    match &actions[1] {
        EventSubAction::Alert { alert: AlertEventType::Follow { follower }, required } => {
            assert_eq!(follower, "fan");
            assert!(!required);
        }
        other => panic!("unexpected {other:?}"),
    }
}

#[test]
fn follow_without_user_name_is_not_handled() {
    let msg = notification("channel.follow", no_fields());
    assert!(!is_handled_message(&msg));
}

#[test]
fn unknown_types_are_not_handled() {
    let msg = notification("channel.ban", no_fields());
    assert!(!is_handled_message(&msg));
    let mut msg = notification("stream.online", no_fields());
    msg.message_type = Some(String::from("revocation"));
    assert!(!is_handled_message(&msg));
    msg.message_type = None;
    assert!(!is_handled_message(&msg));
}

#[test]
fn raid_is_recorded_and_shown() {
    let mut e = no_fields();
    e.from_broadcaster_user_name = Some(String::from("friend"));
    e.viewers = Some(12);
    let actions = eventsub_step(&state(), &notification("channel.raid", e));
    assert_eq!(actions.len(), 2);
    match &actions[1] {
        EventSubAction::Alert { alert: AlertEventType::Raid { from, viewers }, required } => {
            assert_eq!(from, "friend");
            assert_eq!(*viewers, 12);
            assert!(*required);
        }
        other => panic!("unexpected {other:?}"),
    }
}

#[test]
fn gifted_subscription_shows_the_short_tier() {
    let mut e = no_fields();
    e.user_name = Some(String::from("lucky"));
    e.tier = Some(String::from("2000"));
    e.is_gift = Some(true);
    let actions = eventsub_step(&state(), &notification("channel.subscribe", e));
    assert_eq!(actions.len(), 2);
    match &actions[1] {
        EventSubAction::Alert { alert: AlertEventType::GiftedSub { gifted, tier }, .. } => {
            assert_eq!(gifted, "lucky");
            assert_eq!(tier, "2");
        }
        other => panic!("unexpected {other:?}"),
    }
}

#[test]
fn plain_subscription_is_only_recorded() {
    let mut e = no_fields();
    e.user_name = Some(String::from("sub"));
    e.tier = Some(String::from("1000"));
    e.is_gift = Some(false);
    let actions = eventsub_step(&state(), &notification("channel.subscribe", e));
    assert_eq!(actions.len(), 1);
    assert!(matches!(actions[0], EventSubAction::WriteRecent { .. }));
}

#[test]
fn resubscription_counts_months() {
    let mut e = no_fields();
    e.user_name = Some(String::from("loyal"));
    e.tier = Some(String::from("3000"));
    e.cumulative_months = Some(5);
    e.streak_months = Some(3);
    let actions = eventsub_step(&state(), &notification("channel.subscription.message", e));
    assert_eq!(actions.len(), 3);
    match &actions[2] {
        EventSubAction::Alert {
            alert: AlertEventType::ReSubscribe { subscriber, tier, subscribed_for, streak },
            ..
        } => {
            assert_eq!(subscriber, "loyal");
            assert_eq!(tier, "3");
            assert_eq!(*subscribed_for, 5);
            assert_eq!(*streak, 3);
        }
        other => panic!("unexpected {other:?}"),
    }
    let mut e = no_fields();
    e.user_name = Some(String::from("new"));
    e.tier = Some(String::from("1000"));
    e.cumulative_months = Some(1);
    e.streak_months = Some(1);
    let actions = eventsub_step(&state(), &notification("channel.subscription.message", e));
    assert!(matches!(
        &actions[2],
        EventSubAction::Alert { alert: AlertEventType::Subscribe { .. }, .. }
    ));
}

#[test]
fn gift_of_prime_subscriptions_keeps_prime() {
    let mut e = no_fields();
    e.user_name = Some(String::from("giver"));
    e.tier = Some(String::from("Prime"));
    e.total = Some(5);
    let actions = eventsub_step(&state(), &notification("channel.subscription.gift", e));
    assert_eq!(actions.len(), 1);
    match &actions[0] {
        EventSubAction::Alert { alert: AlertEventType::GiftSub { gifter, total, tier }, .. } => {
            assert_eq!(gifter, "giver");
            assert_eq!(*total, 5);
            assert_eq!(tier, "Prime");
        }
        other => panic!("unexpected {other:?}"),
    }
}

#[test]
fn cheer_is_shown() {
    let mut e = no_fields();
    e.user_name = Some(String::from("rich"));
    e.message = Some(String::from("Cheer100"));
    e.is_anonymous = Some(false);
    e.bits = Some(100);
    let actions = eventsub_step(&state(), &notification("channel.cheer", e));
    assert_eq!(actions.len(), 1);
    assert!(matches!(
        &actions[0],
        EventSubAction::Alert { alert: AlertEventType::Bits { bits: 100, .. }, required: true }
    ));
}

#[test]
fn stream_events() {
    let actions = eventsub_step(&state(), &notification("stream.online", no_fields()));
    assert!(matches!(actions[..], [EventSubAction::StreamOnline]));
    let actions = eventsub_step(&state(), &notification("stream.offline", no_fields()));
    match &actions[..] {
        [EventSubAction::StreamOffline { title, game_name, discord_msg_id }] => {
            assert_eq!(title, "Coding");
            assert_eq!(game_name, "Rust");
            assert_eq!(discord_msg_id, "42");
        }
        other => panic!("unexpected {other:?}"),
    }
    let unknown = EventSubState {
        title: String::new(),
        game_name: String::from("Rust"),
        discord_msg_id: String::new(),
    };
    assert!(eventsub_step(&unknown, &notification("stream.offline", no_fields())).is_empty());
}

#[test]
fn reward_redemption_does_nothing() {
    let mut e = no_fields();
    e.user_name = Some(String::from("a"));
    e.reward_title = Some(String::from("Hydrate"));
    let msg = notification("channel.channel_points_custom_reward_redemption.add", e);
    assert!(is_handled_message(&msg));
    assert!(eventsub_step(&state(), &msg).is_empty());
}

#[test]
fn reconnect_and_keepalive() {
    let msg = EventSubMessage {
        message_type: Some(String::from("session_reconnect")),
        session_reconnect_url: None,
        session: None,
        subscription_type: None,
        event: no_fields(),
        reconnect_url: Some(String::from("wss://new")),
    };
    match &eventsub_step(&state(), &msg)[..] {
        [EventSubAction::Connect(url)] => assert_eq!(url, "wss://new"),
        other => panic!("unexpected {other:?}"),
    }
    let msg = EventSubMessage {
        message_type: Some(String::from("session_keepalive")),
        session_reconnect_url: None,
        session: None,
        subscription_type: None,
        event: no_fields(),
        reconnect_url: None,
    };
    assert!(is_handled_message(&msg));
    assert!(eventsub_step(&state(), &msg).is_empty());
}

#[test]
fn unused_connection_is_noticed() {
    assert!(connection_unused("{\"reason\": \"connection unused\"}"));
    assert!(!connection_unused("{\"metadata\": {}}"));
}

#[test]
fn recent_files() {
    let (path, contents) = recent_file("follow", "fan");
    assert_eq!(path, "recents/recent_follow.txt");
    assert_eq!(contents, "recent follow: fan");
}

#[test]
fn subscriptions_for_a_session() {
    let subs = subscriptions("sess");
    assert_eq!(subs.len(), 9);
    let kinds: Vec<&str> = subs.iter().map(|s| s.sub_type.as_str()).collect();
    assert_eq!(
        kinds,
        vec![
            "stream.online",
            "stream.offline",
            "channel.follow",
            "channel.raid",
            "channel.subscribe",
            "channel.subscription.message",
            "channel.subscription.gift",
            "channel.channel_points_custom_reward_redemption.add",
            "channel.cheer",
        ]
    );
    assert_eq!(subs[2].version, "2");
    assert_eq!(subs[2].condition.len(), 2);
    assert_eq!(subs[3].condition[0].0, "to_broadcaster_user_id");
    assert_eq!(subs[3].condition[0].1, "143306668");
    assert!(subs.iter().all(|s| s.session_id == "sess"));
}

#[test]
fn stream_online_remembers_the_stream() {
    let mut st = state();
    let res = TwitchApiResponse { data: vec![stream("2023-01-01T00:00:00Z")], pagination: None };
    assert_eq!(stream_online(&mut st, &res).ok(), Some(1672531200));
    assert_eq!(st.title, "New title");
    assert_eq!(st.game_name, "Software and Game Development");
    assert_eq!(st.discord_msg_id, "42");
}

#[test]
fn stream_online_with_offset_start() {
    let mut st = state();
    let res = TwitchApiResponse { data: vec![stream("1970-01-01T01:00:00+01:00")], pagination: None };
    assert_eq!(stream_online(&mut st, &res).ok(), Some(0));
}

#[test]
fn stream_online_refusals_change_nothing() {
    let mut st = state();
    let res = TwitchApiResponse { data: vec![], pagination: None };
    assert!(matches!(stream_online(&mut st, &res), Err(StreamOnlineError::NoStream)));
    let res = TwitchApiResponse { data: vec![stream("yesterday")], pagination: None };
    assert!(matches!(stream_online(&mut st, &res), Err(StreamOnlineError::StartTime)));
    assert_eq!(st.title, "Coding");
    assert_eq!(st.game_name, "Rust");
}

#[test]
fn record_stream_start_takes_the_parsed_start() {
    let mut st = state();
    assert!(matches!(record_stream_start(&mut st, &stream("x"), None), Err(StreamOnlineError::StartTime)));
    assert_eq!(st.title, "Coding");
    assert_eq!(record_stream_start(&mut st, &stream("x"), Some(7)).ok(), Some(7));
    assert_eq!(st.title, "New title");
}

#[test]
fn eventsub_frames_are_read_into_messages() {
    let raw = r#"{"metadata":{"message_type":"notification"},"payload":{"subscription":{"type":"channel.raid"},"event":{"from_broadcaster_user_name":"bob","viewers":12,"is_gift":true,"total":-3,"bits":1.5,"reward":{"title":"Hydrate"}}}}"#;
    let m = eventsub_message(raw).unwrap();
    assert_eq!(m.message_type.as_deref(), Some("notification"));
    assert_eq!(m.subscription_type.as_deref(), Some("channel.raid"));
    assert_eq!(m.event.from_broadcaster_user_name.as_deref(), Some("bob"));
    assert_eq!(m.event.viewers, Some(12));
    assert_eq!(m.event.is_gift, Some(true));
    assert_eq!(m.event.total, None);
    assert_eq!(m.event.bits, None);
    assert_eq!(m.event.reward_title.as_deref(), Some("Hydrate"));
    assert!(m.event.user_name.is_none());
    assert!(m.session.is_none());
    assert!(m.reconnect_url.is_none());
    assert!(is_handled_message(&m));
}

#[test]
fn eventsub_welcome_and_reconnect_frames() {
    let welcome = r#"{"metadata":{"message_type":"session_welcome"},"payload":{"session":{"id":"abc","status":"connected","reconnect_url":null}}}"#;
    let m = eventsub_message(welcome).unwrap();
    let session = m.session.as_ref().unwrap();
    assert_eq!(session.id.as_deref(), Some("abc"));
    assert_eq!(session.status.as_deref(), Some("connected"));
    assert!(m.session_reconnect_url.is_none());
    let reconnect = r#"{"metadata":{"message_type":"session_reconnect"},"payload":{"reconnect_url":"wss://x","session":{"reconnect_url":"wss://y"}}}"#;
    let m = eventsub_message(reconnect).unwrap();
    assert_eq!(m.reconnect_url.as_deref(), Some("wss://x"));
    assert_eq!(m.session_reconnect_url.as_deref(), Some("wss://y"));
    assert!(eventsub_message("not json").is_none());
    let list = eventsub_message("[1, 2]").unwrap();
    assert!(list.message_type.is_none());
    assert!(!is_handled_message(&list));
}
