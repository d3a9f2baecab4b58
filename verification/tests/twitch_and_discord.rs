use sadmadbotlad::config::Config;
use sadmadbotlad::discord::{announcement_url, offline_message, online_message};
use sadmadbotlad::twitch::{
    ad_error_tolerated, ads_for_scene, has_token_lines, is_vip_reply, next_expiry, offline_event,
    online_event, retry_after, token_file, token_step, tokens_from_file, AdData, TokenStep,
    TwitchAd, TOKEN_LIFETIME_MS,
};

#[test]
fn channel_subscriptions_of_the_simple_bot() {
    let on = online_event(String::from("s1"));
    assert_eq!(on.sub_type, "stream.online");
    assert_eq!(on.version, 1);
    assert_eq!(on.condition.broadcaster_user_id, "143306668");
    assert_eq!(on.transport.method, "websocket");
    assert_eq!(on.transport.session_id, "s1");
    let off = offline_event(String::from("s2"));
    assert_eq!(off.sub_type, "stream.offline");
    assert_eq!(off.transport.session_id, "s2");
}

#[test]
fn token_is_revalidated_after_an_hour() {
    assert_eq!(token_step(1_000, 999), TokenStep::Fresh);
    assert_eq!(token_step(1_000, 1_000), TokenStep::Validate);
    let expiry = next_expiry(5_000);
    assert_eq!(expiry, 3_605_000);
    assert_eq!(token_step(expiry, 5_000 + TOKEN_LIFETIME_MS - 1), TokenStep::Fresh);
    assert_eq!(token_step(expiry, 5_000 + TOKEN_LIFETIME_MS), TokenStep::Validate);
}

#[test]
fn vip_lookup() {
    assert!(is_vip_reply("123", Some("123")));
    assert!(!is_vip_reply("123", Some("124")));
    assert!(!is_vip_reply("123", None));
}

#[test]
fn ads() {
    let ad = TwitchAd {
        data: vec![AdData { length: 90, message: String::new(), retry_after: 480 }],
    };
    assert_eq!(retry_after(&ad), 480);
    assert!(ads_for_scene("Random"));
    assert!(!ads_for_scene("random"));
    assert!(ad_error_tolerated("429 Too Many Requests :: message: too many requests"));
    assert!(!ad_error_tolerated("401 Unauthorized"));
}

#[test]
fn announcement_of_a_stream() {
    let m = online_message("Coding", "Rust", 1668640560);
    assert_eq!(m.content, "<@&897124518374559794> Salman is streaming\n");
    assert_eq!(m.embeds.len(), 1);
    let e = &m.embeds[0];
    assert_eq!(e.title, "Coding");
    assert_eq!(e.author.name, "SadMadLadSalMaN");
    assert_eq!(e.url, "https://www.twitch.tv/sadmadladsalman");
    assert_eq!(
        e.image.url,
        "https://static-cdn.jtvnw.net/previews-ttv/live_user_sadmadladsalman-320x180.jpg?something=1668640560"
    );
    assert_eq!(e.fields.len(), 2);
    assert_eq!(e.fields[0].name, "Game");
    assert_eq!(e.fields[0].value, "Rust");
    assert_eq!(e.fields[1].name, "Started");
    assert_eq!(e.fields[1].value, "<t:1668640560:R>");
    assert!(e.fields.iter().all(|f| f.inline));
}

#[test]
fn edited_announcement_of_an_ended_stream() {
    let m = offline_message("Coding", "Rust", -5);
    assert_eq!(m.embeds[0].fields[1].name, "Ended");
    assert_eq!(m.embeds[0].fields[1].value, "<t:-5:R>");
    assert_eq!(
        announcement_url("99"),
        "https://discordapp.com/api/channels/575540932028530699/messages/99"
    );
}

#[test]
fn config_defaults_and_flags() {
    let c = Config::from_flags(None, None, false, None, None, None);
    assert_eq!(c.database_path, "database.db");
    assert_eq!(c.config_path, "./config.toml");
    assert_eq!(c.commands_path, "./commands");
    assert_eq!(c.cmd_delim, '!');
    assert_eq!(c.port, 3000);
    assert!(!c.manual);
    assert_eq!(c.alerts_port(), 4000);
    let c = Config::from_flags(Some('?'), Some(8080), true, Some(String::from("c.toml")), None, Some(String::from("x.db")));
    assert_eq!(c.cmd_delim, '?');
    assert_eq!(c.port, 8080);
    assert!(c.manual);
    assert_eq!(c.config_path, "c.toml");
    assert_eq!(c.database_path, "x.db");
    assert_eq!(c.alerts_port(), 9080);
}

#[test]
fn tokens_file_reads_back_what_was_written() {
    let text = token_file("refresh123", "access456");
    assert_eq!(text, "refresh123\naccess456");
    assert!(has_token_lines(&text));
    assert_eq!(tokens_from_file(&text), (String::from("refresh123"), String::from("access456")));
    assert_eq!(
        tokens_from_file("r\na\nextra"),
        (String::from("r"), String::from("a"))
    );
    assert!(!has_token_lines("only one line"));
}
