use sadmadbotlad::simple_bot::{
    chat_command_of, chat_step, ChatAction, current_song_reply, is_readable_frame, parse_message, parse_sender,
    queue_listing, request_song, skip, song_from_link, song_from_search, text_frame_command,
    volume_reply, volume_set_reply, IrcChat, Queue, SongRequest,
};

fn request(n: usize) -> SongRequest {
    SongRequest {
        title: format!("t{n}"),
        url: format!("https://youtube.com/watch/v{n}"),
        user: format!("u{n}"),
    }
}

const LINE: &str = ":nick!nick@nick.tmi.twitch.tv PRIVMSG #sadmadladsalman :!sr never gonna\r\n";

#[test]
fn simple_queue_starts_empty() {
    let q = Queue::new();
    assert!(q.current_song.is_none());
    assert_eq!(q.rear, 0);
}

#[test]
fn simple_queue_is_first_in_first_out() {
    let mut q = Queue::new();
    for n in 0..3 {
        assert!(q.enqueue(&request(n)).is_ok());
    }
    let served: Vec<String> = (0..3).map(|_| q.dequeue().unwrap().title).collect();
    assert_eq!(served, vec!["t0", "t1", "t2"]);
    assert_eq!(q.current_song.as_ref().unwrap().title, "t2");
}

#[test]
fn simple_queue_drains_to_the_current_song_then_nothing() {
    let mut q = Queue::new();
    q.enqueue(&request(5)).unwrap();
    assert_eq!(q.dequeue().unwrap().title, "t5");
    assert_eq!(q.dequeue().unwrap().title, "t5");
    assert!(q.current_song.is_none());
    assert!(q.dequeue().is_none());
}

#[test]
fn simple_queue_is_full_at_twenty() {
    let mut q = Queue::new();
    for n in 0..20 {
        q.enqueue(&request(n)).unwrap();
    }
    assert_eq!(q.enqueue(&request(20)), Err("queue is full"));
}

#[test]
fn sender_and_text_of_a_chat_line() {
    assert!(is_readable_frame(LINE));
    assert_eq!(parse_sender(LINE), "nick");
    assert_eq!(parse_message(LINE), "!sr never gonna");
    let inner = ":a!b@c PRIVMSG #x :one\r\ntwo\r\n";
    assert_eq!(parse_message(inner), "onetwo");
}

#[test]
fn unreadable_chat_lines_are_reported() {
    assert!(!is_readable_frame("PRIVMSG without a bang or colon"));
    assert!(!is_readable_frame("!PRIVMSG :x"));
    assert!(is_readable_frame("no chat line here"));
}

#[test]
fn chat_lines_are_cut_at_byte_offsets() {
    // The `!` lies at byte 6 of the untrimmed line; the trimmed line is cut there.
    assert_eq!(parse_sender("\u{3000}:ab!c :hi"), "ab!c ");
    // The `:` lies at byte 4 of the line from byte 1; the trimmed line is cut at byte 6.
    assert_eq!(parse_message(" \u{3000}x:abcdef"), "ef");
    // Byte 1 lies inside the leading ideographic space, so the text cannot be read.
    assert!(!is_readable_frame("\u{3000}:ab!c PRIVMSG :hi"));
    assert!(is_readable_frame(" \u{3000}x!y PRIVMSG :abcdef"));
}

#[test]
fn chat_commands_by_prefix() {
    assert!(matches!(chat_command_of("!ping", "bob"), Some(IrcChat::Ping)));
    assert!(matches!(chat_command_of("!pinger", "bob"), Some(IrcChat::Ping)));
    match chat_command_of("!sr never gonna", "bob") {
        Some(IrcChat::Sr((sender, song))) => {
            assert_eq!(sender, "bob");
            assert_eq!(song, "never gonna");
        }
        other => panic!("unexpected {other:?}"),
    }
    match chat_command_of("!sr", "bob") {
        Some(IrcChat::Invalid(e)) => assert_eq!(e, "Correct usage: !sr <URL>"),
        other => panic!("unexpected {other:?}"),
    }
    assert!(matches!(chat_command_of("!skip", "bob"), Some(IrcChat::SkipSr)));
    assert!(matches!(chat_command_of("!queue", "bob"), Some(IrcChat::Queue)));
    assert!(matches!(chat_command_of("!currentsong", "bob"), Some(IrcChat::CurrentSong)));
    assert!(matches!(chat_command_of("!play", "bob"), Some(IrcChat::Play)));
    assert!(matches!(chat_command_of("!\u{642}\u{648}\u{627}\u{646}\u{64a}\u{646}", "bob"), Some(IrcChat::Rules)));
    assert!(chat_command_of("!title", "bob").is_none());
    assert!(chat_command_of("hello", "bob").is_none());
}

#[test]
fn volume_commands() {
    assert!(matches!(chat_command_of("!volume 50", "bob"), Some(IrcChat::SetVolume(50))));
    assert!(matches!(chat_command_of("!volume -5 loud", "bob"), Some(IrcChat::SetVolume(-5))));
    assert!(matches!(chat_command_of("!volume +7", "bob"), Some(IrcChat::SetVolume(7))));
    match chat_command_of("!volume abc", "bob") {
        Some(IrcChat::Invalid(e)) => assert_eq!(e, "Provide number"),
        other => panic!("unexpected {other:?}"),
    }
    assert!(matches!(chat_command_of("!volume 99999999999999999999", "bob"), Some(IrcChat::Invalid(_))));
    assert!(matches!(chat_command_of("!volume  9", "bob"), Some(IrcChat::Invalid(_))));
    assert!(matches!(chat_command_of("!volume", "bob"), Some(IrcChat::GetVolume)));
    assert!(matches!(chat_command_of("!pause", "bob"), Some(IrcChat::GetVolume)));
}

#[test]
fn text_frames_become_commands() {
    match text_frame_command(LINE) {
        Some(IrcChat::Sr((sender, song))) => {
            assert_eq!(sender, "nick");
            assert_eq!(song, "never gonna");
        }
        other => panic!("unexpected {other:?}"),
    }
    assert!(matches!(text_frame_command("PING :tmi.twitch.tv"), Some(IrcChat::Ping)));
    assert!(text_frame_command(":tmi.twitch.tv 001 bot :Welcome").is_none());
}

#[test]
fn queue_listing_numbers_the_slots() {
    let mut q = Queue::new();
    assert_eq!(queue_listing(&q), "");
    q.enqueue(&request(1)).unwrap();
    q.enqueue(&request(2)).unwrap();
    assert_eq!(
        queue_listing(&q),
        " 1- https://youtube.com/watch/v1 :: by u1 2- https://youtube.com/watch/v2 :: by u2"
    );
}

#[test]
fn current_song_and_skip_replies() {
    let mut q = Queue::new();
    assert_eq!(current_song_reply(&q), "No song playing");
    let (text, advance) = skip(&mut q);
    assert_eq!(text, "Queue is empty");
    assert!(!advance);
    q.enqueue(&request(3)).unwrap();
    let (text, advance) = skip(&mut q);
    assert_eq!(text, "Skipped t3");
    assert!(advance);
    assert_eq!(current_song_reply(&q), "Current song: t3 - by u3");
}

#[test]
fn volume_replies() {
    assert_eq!(volume_set_reply(-20), "Volume set to -20");
    assert_eq!(volume_reply(Some(35)), "Volume: 35");
    assert_eq!(volume_reply(None), "No volume");
}

#[test]
fn song_requests_of_the_simple_bot() {
    let s = song_from_search("bob", "Title", "abc");
    assert_eq!(s.url, "https://www.youtube.com/watch/abc");
    let l = song_from_link("bob", "Other", "xyz");
    assert_eq!(l.url, "https://youtube.com/watch/xyz");
    let mut q = Queue::new();
    assert_eq!(request_song(&mut q, &l), Ok(String::from("Added: Other")));
    for _ in 0..19 {
        request_song(&mut q, &s).unwrap();
    }
    assert_eq!(request_song(&mut q, &s), Err("queue is full"));
}

#[test]
fn chat_commands_become_actions() {
    let mut q = Queue::new();
    assert!(matches!(chat_step(&q, IrcChat::Ping), ChatAction::Reply(t) if t == "!pong"));
    assert!(matches!(chat_step(&q, IrcChat::SkipSr), ChatAction::Reply(t) if t == "No song playing"));
    assert!(matches!(chat_step(&q, IrcChat::Play), ChatAction::Reply(t) if t == "Queue is empty"));
    assert!(matches!(chat_step(&q, IrcChat::Pause), ChatAction::Pause { reply } if reply == "Paused"));
    assert!(matches!(
        chat_step(&q, IrcChat::SetVolume(-5)),
        ChatAction::SetVolume { volume: -5, reply } if reply == "Volume set to -5"
    ));
    assert!(matches!(chat_step(&q, IrcChat::GetVolume), ChatAction::ReportVolume));
    assert!(matches!(chat_step(&q, IrcChat::Rules), ChatAction::SendRules));
    assert!(matches!(
        chat_step(&q, IrcChat::Sr((String::from("bob"), String::from("song")))),
        ChatAction::RequestSong(s, r) if s == "bob" && r == "song"
    ));
    q.enqueue(&request(1)).unwrap();
    q.dequeue();
    assert!(matches!(chat_step(&q, IrcChat::SkipSr), ChatAction::SkipSong));
    assert!(matches!(chat_step(&q, IrcChat::Play), ChatAction::Resume(s) if s.title == "t1"));
    assert!(matches!(chat_step(&q, IrcChat::CurrentSong), ChatAction::Reply(t) if t.starts_with("Current song: t1")));
}
