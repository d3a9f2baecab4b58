use sadmadbotlad::commands::{
    script_message, working_on_from_file, working_on_line, AlertTestCommand, CommandsError,
    CommandsLoader, CurrentSongCommand, CurrentSongSpotifyCommand, GetTitleCommand,
    GetVolumeCommand, NerdCommand, PingCommand, PlayCommand, PlaySpotifyCommand, QueueCommand,
    RulesCommand, SetTitleCommand, SetVolumeCommand, SevenTvCommand, SkipSrCommand, SrCommand,
    StopCommand, StopSpotifyCommand, VoteSkipCommand, WarrantyCommand, WorkingOnCommand,
};
use sadmadbotlad::song_requests::{SongRequest, SongRequestsError};
use sadmadbotlad::AlertEventType;

fn current() -> Option<SongRequest> {
    Some(SongRequest {
        title: String::from("Song"),
        url: String::from("https://youtube.com/watch/x"),
        id: String::from("x"),
        user: String::from("amy"),
    })
}

#[test]
fn ping_answers_in_the_language_it_was_asked() {
    assert_eq!(PingCommand::new(String::from("ping")).reply('!'), "PRIVMSG #sadmadladsalman :!pong");
    assert_eq!(
        PingCommand::new(String::from("\u{628}\u{646}\u{642}")).reply('?'),
        "PRIVMSG #sadmadladsalman :?\u{64a}\u{643}\u{632}"
    );
}

#[test]
fn nerd_vote_skip_and_seventv() {
    assert_eq!(NerdCommand::new(String::from("nerd")).reply(), "PRIVMSG #sadmadladsalman :nerd");
    assert_eq!(VoteSkipCommand::new(3).reply(), "PRIVMSG #sadmadladsalman :3/5 skip votes");
    assert_eq!(
        SevenTvCommand::new(String::from("pepe laugh")).reply(),
        "PRIVMSG #sadmadladsalman :https://7tv.app/emotes?query=pepe%20laugh"
    );
    assert_eq!(
        SevenTvCommand::new(String::from("caf\u{e9}&")).reply(),
        "PRIVMSG #sadmadladsalman :https://7tv.app/emotes?query=caf%C3%A9%26"
    );
}

#[test]
fn rules_are_sent_line_by_line() {
    let lines = RulesCommand::replies("be nice\r\nno spam\n\nhave fun");
    assert_eq!(
        lines,
        vec![
            "PRIVMSG #sadmadladsalman :be nice",
            "PRIVMSG #sadmadladsalman :no spam",
            "PRIVMSG #sadmadladsalman :",
            "PRIVMSG #sadmadladsalman :have fun",
        ]
    );
    assert!(RulesCommand::replies("").is_empty());
}

#[test]
fn fixed_replies() {
    assert_eq!(WarrantyCommand::reply("none"), "PRIVMSG #sadmadladsalman :none");
    assert_eq!(
        WorkingOnCommand::reply(),
        "PRIVMSG #sadmadladsalman :You can check what I'm working in here: https://gist.github.com/BKSalman/090658c8f67cc94bfb9d582d5be68ed4"
    );
    assert_eq!(QueueCommand::reply(), "PRIVMSG #sadmadladsalman :Check the queue at: https://f5rfm.bksalman.com");
    assert_eq!(StopCommand::reply(), "PRIVMSG #sadmadladsalman :Stopped playing, !play to resume");
    assert_eq!(PlaySpotifyCommand::reply(true), Some(String::from("PRIVMSG #sadmadladsalman :Started playing spotify")));
    assert_eq!(PlaySpotifyCommand::reply(false), None);
    assert_eq!(StopSpotifyCommand::reply(true), Some(String::from("PRIVMSG #sadmadladsalman :Stopped playing spotify")));
    assert_eq!(
        CurrentSongSpotifyCommand::reply("Artist - Track"),
        "PRIVMSG #sadmadladsalman :Current Spotify song: Artist - Track"
    );
}

#[test]
fn song_replies() {
    assert_eq!(CurrentSongCommand::reply(&current()), "PRIVMSG #sadmadladsalman :Current song: Song - by amy");
    assert_eq!(CurrentSongCommand::reply(&None), "PRIVMSG #sadmadladsalman :No song playing");
    assert_eq!(PlayCommand::reply(&current()), "PRIVMSG #sadmadladsalman :Resumed Song");
    assert_eq!(PlayCommand::reply(&None), "PRIVMSG #sadmadladsalman :Queue is empty");
    assert_eq!(SkipSrCommand::reply(&current(), true), "PRIVMSG #sadmadladsalman :Skipped: Song");
    assert_eq!(SkipSrCommand::reply(&current(), false), "");
    assert_eq!(SkipSrCommand::reply(&None, true), "PRIVMSG #sadmadladsalman :No song playing");
}

#[test]
fn sr_replies() {
    assert_eq!(SrCommand::reply(&Ok(String::from("Added: Song"))), "Added: Song");
    assert_eq!(
        SrCommand::reply(&Err(SongRequestsError::InvalidYoutubeUrl)),
        "PRIVMSG #sadmadladsalman :Not a valid youtube URL"
    );
}

#[test]
fn title_and_volume_replies() {
    assert_eq!(GetTitleCommand::reply("Hi"), "PRIVMSG #sadmadladsalman :Current stream title: Hi");
    assert_eq!(
        SetTitleCommand::new(String::from("New")).reply(),
        "PRIVMSG #sadmadladsalman :Set stream title to: New"
    );
    assert_eq!(GetVolumeCommand::reply(Some(-3)), "PRIVMSG #sadmadladsalman :Volume: -3");
    assert_eq!(GetVolumeCommand::reply(None), "PRIVMSG #sadmadladsalman :No volume");
    assert_eq!(SetVolumeCommand::new(i64::MIN).reply(), "PRIVMSG #sadmadladsalman :Volume set to -9223372036854775808");
}

#[test]
fn alert_test_command() {
    let c = AlertTestCommand::new(String::from("FoLLow"));
    assert!(matches!(c.alert().alert_type, AlertEventType::Follow { .. }));
    assert!(c.alert().new);
    assert_eq!(c.reply(), "PRIVMSG #sadmadladsalman :Testing FoLLow alert");
    let empty = AlertTestCommand::new(String::new());
    assert_eq!(empty.reply(), "PRIVMSG #sadmadladsalman :Testing raid alert");
    match AlertTestCommand::alert_for("asd").alert_type {
        AlertEventType::Raid { from, viewers } => {
            assert_eq!(from, "lmao");
            assert_eq!(viewers, 9999);
        }
        other => panic!("unexpected {other:?}"),
    }
}

#[test]
fn working_on_file() {
    assert_eq!(working_on_line("verus"), "Currently: verus");
    assert_eq!(working_on_from_file("Currently: verus proofs"), "verus proofs");
    assert_eq!(working_on_from_file("nothing"), "");
}

#[test]
fn script_messages() {
    assert_eq!(script_message("a", None), "a");
    assert_eq!(script_message("a", Some(Some("b"))), "ab");
    assert_eq!(script_message("a", Some(None)), "");
}

#[test]
fn command_files_and_aliases() {
    assert_eq!(
        CommandsLoader::commands_in_file("discord+dc.hebi").unwrap(),
        vec![String::from("discord"), String::from("dc")]
    );
    assert_eq!(CommandsLoader::commands_in_file("a.b.hebi").unwrap(), vec![String::from("a.b")]);
    assert_eq!(
        CommandsLoader::commands_in_file("x++y.hebi").unwrap(),
        vec![String::from("x"), String::new(), String::from("y")]
    );
    assert_eq!(CommandsLoader::commands_in_file("README"), Err(CommandsError::InvalidFile));
}

#[test]
fn loader_reads_back_what_was_inserted() {
    let mut loader = CommandsLoader::new();
    assert_eq!(loader.load("ping"), None);
    loader.insert(String::from("ping"), String::from("code 1"));
    loader.insert(String::from("dc"), String::from("code 2"));
    loader.insert(String::from("ping"), String::from("code 3"));
    assert_eq!(loader.load("ping"), Some(String::from("code 3")));
    assert_eq!(loader.load("dc"), Some(String::from("code 2")));
}

#[test]
fn command_files_load_under_every_alias() {
    let files = vec![
        (String::from("ping+p.hebi"), String::from("code1")),
        (String::from("sr.hebi"), String::from("code2")),
        (String::from("p.hebi"), String::from("code3")),
    ];
    let loader = CommandsLoader::from_files(&files).unwrap();
    assert_eq!(loader.load("ping").as_deref(), Some("code1"));
    assert_eq!(loader.load("p").as_deref(), Some("code3"));
    assert_eq!(loader.load("sr").as_deref(), Some("code2"));
    assert_eq!(loader.load("ping+p"), None);
    let refused = vec![
        (String::from("ok.hebi"), String::new()),
        (String::from("noext"), String::new()),
        (String::from("late.hebi"), String::new()),
    ];
    assert!(matches!(CommandsLoader::from_files(&refused), Err(CommandsError::InvalidFile)));
    assert!(CommandsLoader::from_files(&Vec::new()).unwrap().load("ping").is_none());
}
