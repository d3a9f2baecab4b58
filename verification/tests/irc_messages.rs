use sadmadbotlad::irc::{
    accepts_privmsg, irc_step, is_parsable_irc, parse_irc, to_irc_message, IrcAction, IrcFrame,
    Tags,
};

const LINE: &str = "@badges=broadcaster/1;display-name=Salman;mod=0 :salman!salman@salman.tmi.twitch.tv PRIVMSG #sadmadladsalman :!Ping  hello world \r\n";

#[test]
fn parse_irc_reads_tags_and_trimmed_text() {
    assert!(is_parsable_irc(LINE));
    let m = parse_irc(LINE);
    assert_eq!(m.message, "!Ping  hello world");
    assert_eq!(m.tags.get("display-name").map(|s| s.as_str()), Some("Salman"));
    assert_eq!(m.tags.get("mod").map(|s| s.as_str()), Some("0"));
    assert_eq!(m.tags.get("missing"), None);
}

#[test]
fn tag_value_mentioning_privmsg_is_empty() {
    let line = "@a=1;b=xPRIVMSGy :tmi :hi";
    assert!(is_parsable_irc(line));
    let m = parse_irc(line);
    assert_eq!(m.tags.get("a").map(|s| s.as_str()), Some("1"));
    assert_eq!(m.tags.get("b").map(|s| s.as_str()), Some(""));
}

#[test]
fn unparsable_lines_are_refused() {
    assert!(!is_parsable_irc("no-space-at-all"));
    assert!(!is_parsable_irc("@a=1 :no colon after the first char"));
    assert!(!is_parsable_irc("@novalue :x :y"));
}

#[test]
fn broadcaster_and_mod_flags() {
    let m = parse_irc(LINE);
    assert_eq!(m.tags.is_broadcaster(), Some(true));
    assert_eq!(m.tags.is_mod(), Some(false));
    assert_eq!(m.tags.mods_only(), None);
    assert_eq!(m.tags.get_sender(), Some(String::from("Salman")));
}

#[test]
fn mods_only_refuses_plain_viewers() {
    let mut tags = Tags::new();
    tags.insert(String::from("mod"), String::from("0"));
    tags.insert(String::from("badges"), String::from("subscriber/12"));
    assert_eq!(tags.mods_only(), Some(String::from("This command can only be used by mods")));
    tags.insert(String::from("mod"), String::from("1"));
    assert_eq!(tags.is_mod(), Some(true));
    assert_eq!(tags.mods_only(), None);
}

#[test]
fn mods_only_without_tags_says_nothing() {
    let tags = Tags::new();
    assert_eq!(tags.is_mod(), None);
    assert_eq!(tags.is_broadcaster(), None);
    assert_eq!(tags.mods_only(), None);
    assert_eq!(tags.get_sender(), None);
    assert_eq!(tags.get_reply(), None);
}

#[test]
fn tags_insert_replaces_and_get_reads_back() {
    let mut tags = Tags::new();
    tags.insert(String::from("k"), String::from("1"));
    tags.insert(String::from("other"), String::from("2"));
    tags.insert(String::from("k"), String::from("3"));
    assert_eq!(tags.get("k").map(|s| s.as_str()), Some("3"));
    assert_eq!(tags.get("other").map(|s| s.as_str()), Some("2"));
}

#[test]
fn decode_message_unescapes_tag_values() {
    assert_eq!(Tags::decode_message("hello\\sworld\\:\\\\x\\"), "hello world;\\x");
    assert_eq!(Tags::decode_message("a\\rb\\nc\\qd"), "a\rb\ncqd");
    assert_eq!(Tags::decode_message(""), "");
}

#[test]
fn get_reply_decodes_the_parent_body() {
    let mut tags = Tags::new();
    tags.insert(String::from("reply-parent-msg-body"), String::from("a\\sb"));
    assert_eq!(tags.get_reply(), Some(String::from("a b")));
}

#[test]
fn to_irc_message_prefixes_the_channel() {
    assert_eq!(to_irc_message("hi"), "PRIVMSG #sadmadladsalman :hi");
}

#[test]
fn irc_step_runs_commands_with_lowercased_names() {
    match irc_step(IrcFrame::Text(String::from(LINE)), '!') {
        Some(IrcAction::Run { command, context }) => {
            assert_eq!(command, "ping");
            assert_eq!(context.args, vec![String::from("hello"), String::from("world")]);
            assert_eq!(context.message_metadata.message, "!Ping  hello world");
        }
        other => panic!("unexpected {other:?}"),
    }
}

#[test]
fn irc_step_skips_plain_chat_and_other_prefixes() {
    let line = "@mod=0 :a!a@a PRIVMSG #c :just talking";
    assert!(matches!(irc_step(IrcFrame::Text(String::from(line)), '!'), Some(IrcAction::Skip)));
    let line = "@mod=0 :a!a@a PRIVMSG #c :!ping";
    assert!(matches!(irc_step(IrcFrame::Text(String::from(line)), '?'), Some(IrcAction::Skip)));
}

#[test]
fn irc_step_reply_drops_the_mention() {
    let line = "@reply-parent-msg-body=hey;mod=1 :a!a@a PRIVMSG #c :@someone !Nerd text";
    assert!(accepts_privmsg(line));
    match irc_step(IrcFrame::Text(String::from(line)), '!') {
        Some(IrcAction::Run { command, context }) => {
            assert_eq!(command, "nerd");
            assert_eq!(context.args, vec![String::from("text")]);
        }
        other => panic!("unexpected {other:?}"),
    }
}

#[test]
fn reply_without_space_is_not_accepted() {
    let line = "@reply-parent-msg-body=hey :a!a@a PRIVMSG #c :@someone";
    assert!(is_parsable_irc(line));
    assert!(!accepts_privmsg(line));
}

#[test]
fn irc_step_reconnect_command_restarts() {
    let line = "@mod=1 :a!a@a PRIVMSG #c :!ReConnect now";
    assert!(matches!(irc_step(IrcFrame::Text(String::from(line)), '!'), Some(IrcAction::Restart)));
}

#[test]
fn irc_step_answers_server_pings_and_restarts() {
    match irc_step(IrcFrame::Text(String::from("PING :tmi.twitch.tv")), '!') {
        Some(IrcAction::Send(s)) => assert_eq!(s, "PONG :tmi.twitch.tv\r\n"),
        other => panic!("unexpected {other:?}"),
    }
    assert!(matches!(
        irc_step(IrcFrame::Text(String::from(":tmi.twitch.tv RECONNECT")), '!'),
        Some(IrcAction::Restart)
    ));
    assert!(matches!(irc_step(IrcFrame::Text(String::from(":tmi.twitch.tv 001 bot :Welcome")), '!'), Some(IrcAction::Skip)));
    assert!(matches!(irc_step(IrcFrame::Ping, '!'), Some(IrcAction::Pong)));
    assert!(matches!(irc_step(IrcFrame::Close, '!'), Some(IrcAction::Restart)));
    assert!(matches!(irc_step(IrcFrame::Other, '!'), Some(IrcAction::Restart)));
    assert!(matches!(irc_step(IrcFrame::Error, '!'), Some(IrcAction::Restart)));
}

#[test]
fn irc_step_command_word_without_ascii_start() {
    let line = "@mod=1 :a!a@a PRIVMSG #c :!";
    match irc_step(IrcFrame::Text(String::from(line)), '!') {
        Some(IrcAction::Run { command, context }) => {
            assert_eq!(command, "");
            assert!(context.args.is_empty());
        }
        other => panic!("unexpected {other:?}"),
    }
    let line = "@mod=1 :a!a@a PRIVMSG #c :\u{642}x";
    assert!(irc_step(IrcFrame::Text(String::from(line)), '\u{642}').is_none());
}

#[test]
fn duplicated_tags_keep_every_tag() {
    let mut tags = Tags::new();
    tags.insert(String::from("mod"), String::from("1"));
    tags.insert(String::from("color"), String::from("#FF0000"));
    tags.insert(String::from("mod"), String::from("0"));
    let copy = tags.duplicate();
    assert_eq!(copy.get("mod").map(|s| s.as_str()), Some("0"));
    assert_eq!(copy.get("color").map(|s| s.as_str()), Some("#FF0000"));
    assert!(copy.get("badges").is_none());
}
