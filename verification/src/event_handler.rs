//! The events that drive the bot: websocket control frames, chat commands
//! and player notifications, and what a player notification does to the
//! song queue.

use vstd::prelude::*;

use crate::song_requests::{dequeued, Queue, QueueView};

verus! {

/// An event for the bot.
#[derive(Debug)]
pub enum Event {
    IrcEvent(IrcEvent),
    MpvEvent(MpvEvent),
}

/// An event from the chat connection.
#[derive(Debug)]
pub enum IrcEvent {
    WebSocket(IrcWs),
    Chat(IrcChat),
}

/// A control event of the chat websocket.
#[derive(Debug)]
pub enum IrcWs {
    Ping(Vec<u8>),
    Reconnect,
}

/// A chat command.
#[derive(Debug)]
pub enum IrcChat {
    Invalid(String),
    Ping,
    ChatPing(String),
    Sr((String, String)),
    SkipSr,
    Queue,
    CurrentSong,
    CurrentSongSpotify,
    SetVolume(i64),
    GetVolume,
    Stop,
    Play,
    Rules,
    GetTitle,
    SetTitle(String),
    ModsOnly,
    Warranty,
    RustWarranty,
    PlaySpotify,
    StopSpotify,
    Commercial,
    Database,
    WorkingOn,
    PixelPerfect,
    Discord,
    Nerd(String),
    VoteSkip(usize),
    SevenTv(String),
    Test(String),
}

/// The kind of a test alert.
#[derive(Debug)]
pub enum TestType {
    Raid,
    Follow,
}

/// A notification from the player.
#[derive(Debug)]
pub enum MpvEvent {
    DequeueSong,
    Error(i32),
}

/// The queue after a player notification: when a song is current, a
/// `DequeueSong` only forgets it; otherwise it takes the next waiting
/// song. An error forgets the current song.
pub open spec fn after_mpv_event(q: QueueView, event: MpvEvent) -> QueueView {
    match event {
        MpvEvent::DequeueSong => if q.current is Some {
            QueueView { current: None, pending: q.pending }
        } else {
            dequeued(q)
        },
        MpvEvent::Error(_) => QueueView { current: None, pending: q.pending },
    }
}

/// Applies a player notification to the queue. A `DequeueSong` with no
/// current song needs a waiting song.
pub fn handle_mpv_event(queue: &mut Queue, event: MpvEvent)
    requires
        old(queue).wf(),
        event is DequeueSong && old(queue).current_song is None ==> old(queue).rear > 0,
    ensures
        final(queue).wf(),
        final(queue)@ == after_mpv_event(old(queue)@, event),
{
    match event {
        MpvEvent::DequeueSong => {
            if queue.current_song.is_some() {
                queue.current_song = None;
            } else {
                queue.dequeue();
            }
        },
        MpvEvent::Error(_) => {
            queue.current_song = None;
        },
    }
}

} // verus!
