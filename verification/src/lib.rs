//! Chat-bot logic for a Twitch channel: IRC message parsing, chat command
//! replies, the song-request queue, EventSub notification handling, the
//! Discord announcement of a stream, the web pages of the overlays, the
//! smaller bot that came with them, and the text processing that all of
//! these share.

pub mod alert;
pub mod commands;
pub mod config;
pub mod dict;
pub mod discord;
pub mod event_handler;
pub mod eventsub;
pub mod frontend;
pub mod irc;
pub mod json;
pub mod simple_bot;
pub mod song_requests;
pub mod text;
pub mod twitch;
pub mod youtube;

pub use alert::{Alert, AlertEventType};

use vstd::prelude::*;

verus! {

} // verus!
