//! The settings of the bot, from its command-line flags.

use vstd::prelude::*;

verus! {

/// The settings of the bot.
#[derive(Debug)]
pub struct Config {
    pub database_path: String,
    pub config_path: String,
    pub commands_path: String,
    pub manual: bool,
    pub cmd_delim: char,
    pub port: u16,
}

/// The value of an optional flag, or its default.
pub open spec fn or_default(flag: Option<String>, default: Seq<char>) -> Seq<char> {
    match flag {
        Some(v) => v@,
        None => default,
    }
}

/// The value of an optional text flag, or `default`.
fn flag_or(flag: Option<String>, default: &str) -> (r: String)
    ensures
        r@ == or_default(flag, default@),
{
    match flag {
        Some(v) => v,
        None => String::from_str(default),
    }
}

impl Config {
    /// The settings for the given flags: each flag that was not given takes
    /// its default (`database.db`, `./config.toml`, `./commands`, `!` as the
    /// command prefix, port 3000).
    pub fn from_flags(
        cmd_delim: Option<char>,
        port: Option<u16>,
        manual: bool,
        config_path: Option<String>,
        commands_path: Option<String>,
        database_path: Option<String>,
    ) -> (c: Config)
        ensures
            c.database_path@ == or_default(database_path, "database.db"@),
            c.config_path@ == or_default(config_path, "./config.toml"@),
            c.commands_path@ == or_default(commands_path, "./commands"@),
            c.manual == manual,
            c.cmd_delim == match cmd_delim {
                Some(d) => d,
                None => '!',
            },
            c.port == match port {
                Some(p) => p,
                None => 3000u16,
            },
    {
        Config {
            database_path: flag_or(database_path, "database.db"),
            config_path: flag_or(config_path, "./config.toml"),
            commands_path: flag_or(commands_path, "./commands"),
            manual,
            cmd_delim: match cmd_delim {
                Some(d) => d,
                None => '!',
            },
            port: match port {
                Some(p) => p,
                None => 3000,
            },
        }
    }

    /// The port of the alerts websocket server: a thousand above the port
    /// of the song-request server.
    pub fn alerts_port(&self) -> (p: u16)
        requires
            self.port + 1000 <= u16::MAX,
        ensures
            p == self.port + 1000,
    {
        self.port + 1000
    }
}

} // verus!
