//! The smaller bot: chat commands recognised by their prefix, song requests
//! held in twenty slots behind the song that plays, and follow events for
//! the overlay.

use vstd::prelude::*;

use crate::song_requests::QUEUE_CAPACITY;
use crate::text;
use crate::text::{
    chars_of, contains_exec, find_char_exec, i64_to_string, parse_i64, remove_crlf,
    starts_with_exec, string_of, trim_bounds, u64_to_string,
};

verus! {

/// An event for the overlay.
#[derive(Debug)]
pub enum FrontEndEvent {
    Follow { follower: String },
}

/// An event for the bot.
#[derive(Debug)]
pub enum Event {
    IrcEvent(IrcEvent),
    MpvEvent(MpvEvent),
}

/// An event from the chat connection.
#[derive(Debug)]
pub enum IrcEvent {
    WebSocket(IrcWs),
    Chat(IrcChat),
}

/// A control event of the chat websocket.
#[derive(Debug)]
pub enum IrcWs {
    Ping,
    Reconnect,
}

/// A chat command.
#[derive(Debug)]
pub enum IrcChat {
    Invalid(String),
    Ping,
    Sr((String, String)),
    SkipSr,
    Queue,
    CurrentSong,
    SetVolume(i64),
    GetVolume,
    Pause,
    Play,
    Rules,
}

/// A chat command as values.
pub enum IrcChatView {
    Invalid(Seq<char>),
    Ping,
    Sr((Seq<char>, Seq<char>)),
    SkipSr,
    Queue,
    CurrentSong,
    SetVolume(int),
    GetVolume,
    Pause,
    Play,
    Rules,
}

impl View for IrcChat {
    type V = IrcChatView;

    open spec fn view(&self) -> IrcChatView {
        match self {
            IrcChat::Invalid(e) => IrcChatView::Invalid(e@),
            IrcChat::Ping => IrcChatView::Ping,
            IrcChat::Sr((sender, song)) => IrcChatView::Sr((sender@, song@)),
            IrcChat::SkipSr => IrcChatView::SkipSr,
            IrcChat::Queue => IrcChatView::Queue,
            IrcChat::CurrentSong => IrcChatView::CurrentSong,
            IrcChat::SetVolume(v) => IrcChatView::SetVolume(*v as int),
            IrcChat::GetVolume => IrcChatView::GetVolume,
            IrcChat::Pause => IrcChatView::Pause,
            IrcChat::Play => IrcChatView::Play,
            IrcChat::Rules => IrcChatView::Rules,
        }
    }
}

/// A notification from the player.
#[derive(Debug)]
pub enum MpvEvent {
    DequeueSong,
    Error(i32),
}

/// A song that a chatter asked for.
#[derive(Debug)]
pub struct SongRequest {
    pub title: String,
    pub url: String,
    pub user: String,
}

/// A song request as character sequences.
pub struct SongView {
    pub title: Seq<char>,
    pub url: Seq<char>,
    pub user: Seq<char>,
}

impl View for SongRequest {
    type V = SongView;

    open spec fn view(&self) -> SongView {
        SongView { title: self.title@, url: self.url@, user: self.user@ }
    }
}

impl SongRequest {
    /// A request with the same fields.
    pub fn duplicate(&self) -> (r: SongRequest)
        ensures
            r == *self,
    {
        SongRequest { title: self.title.clone(), url: self.url.clone(), user: self.user.clone() }
    }
}

/// A copy of a queue slot.
fn duplicate_slot(slot: &Option<SongRequest>) -> (r: Option<SongRequest>)
    ensures
        r == *slot,
{
    match slot {
        Some(song) => Some(song.duplicate()),
        None => None,
    }
}

/// The song queue: `queue[..rear]` are the waiting songs, oldest first, and
/// `current_song` is the song taken off the queue last.
#[derive(Debug)]
pub struct Queue {
    pub current_song: Option<SongRequest>,
    pub queue: [Option<SongRequest>; 20],
    pub rear: usize,
}

/// The queue as values: the current song and the waiting songs in order.
pub struct QueueView {
    pub current: Option<SongView>,
    pub pending: Seq<SongView>,
}

/// The view of an optional song.
pub open spec fn opt_song_view(s: Option<SongRequest>) -> Option<SongView> {
    match s {
        Some(song) => Some(song@),
        None => None,
    }
}

impl Queue {
    /// The waiting songs occupy the first `rear` slots; the other slots are
    /// empty.
    pub open spec fn wf(&self) -> bool {
        &&& self.rear <= QUEUE_CAPACITY
        &&& forall|i: int| 0 <= i < self.rear ==> self.queue[i] is Some
        &&& forall|i: int| self.rear <= i < QUEUE_CAPACITY ==> self.queue[i] is None
    }

    /// The waiting songs, oldest first.
    pub open spec fn pending(&self) -> Seq<SongView> {
        Seq::new(self.rear as nat, |i: int| self.queue[i]->0@)
    }
}

impl View for Queue {
    type V = QueueView;

    open spec fn view(&self) -> QueueView {
        QueueView { current: opt_song_view(self.current_song), pending: self.pending() }
    }
}

/// The queue after asking to add `song`: unchanged when full.
pub open spec fn enqueued(q: QueueView, song: SongView) -> QueueView {
    if q.pending.len() >= QUEUE_CAPACITY {
        q
    } else {
        QueueView { current: q.current, pending: q.pending.push(song) }
    }
}

/// The song a dequeue hands out: the oldest waiting song, or, with none
/// waiting, the current song.
pub open spec fn dequeued_song(q: QueueView) -> Option<SongView> {
    if q.pending.len() == 0 {
        q.current
    } else {
        Some(q.pending[0])
    }
}

/// The queue after a dequeue: the oldest waiting song becomes current; with
/// none waiting, nothing is current any more.
pub open spec fn dequeued(q: QueueView) -> QueueView {
    if q.pending.len() == 0 {
        QueueView { current: None, pending: q.pending }
    } else {
        QueueView { current: Some(q.pending[0]), pending: q.pending.drop_first() }
    }
}

impl Queue {
    /// An empty queue with no current song.
    pub fn new() -> (q: Queue)
        ensures
            q.wf(),
            q@.current is None,
            q@.pending.len() == 0,
    {
        Queue {
            current_song: None,
            queue: [
                None,
                None,
                None,
                None,
                None,
                None,
                None,
                None,
                None,
                None,
                None,
                None,
                None,
                None,
                None,
                None,
                None,
                None,
                None,
                None,
            ],
            rear: 0,
        }
    }

    /// Adds `item` behind the waiting songs; refused with `queue is full`
    /// when twenty are waiting.
    pub fn enqueue(&mut self, item: &SongRequest) -> (r: Result<(), &str>)
        requires
            old(self).wf(),
        ensures
            final(self).wf(),
            final(self)@ == enqueued(old(self)@, item@),
            r is Ok <==> old(self).rear < QUEUE_CAPACITY,
            r matches Err(e) ==> e@ == "queue is full"@,
    {
        if self.rear >= 20 {
            return Err("queue is full");
        }
        let rear = self.rear;
        self.queue[rear] = Some(item.duplicate());
        self.rear = rear + 1;
        assert(self.pending() =~= old(self).pending().push(item@));
        Ok(())
    }

    /// Hands out the oldest waiting song, which becomes the current song;
    /// with no song waiting, hands out the current song and forgets it.
    pub fn dequeue(&mut self) -> (r: Option<SongRequest>)
        requires
            old(self).wf(),
        ensures
            final(self).wf(),
            opt_song_view(r) == dequeued_song(old(self)@),
            final(self)@ == dequeued(old(self)@),
    {
        if self.rear == 0 {
            let current = match &self.current_song {
                Some(song) => Some(song.duplicate()),
                None => None,
            };
            self.current_song = None;
            assert(self.pending() =~= old(self).pending());
            return current;
        }
        self.current_song = duplicate_slot(&self.queue[0]);
        let dequeued_song = duplicate_slot(&self.queue[0]);
        let rear = self.rear;
        let mut i: usize = 0;
        while i < rear - 1
            invariant
                rear == old(self).rear,
                0 < rear <= QUEUE_CAPACITY,
                self.rear == rear,
                i < rear,
                self.current_song == old(self).queue[0],
                forall|j: int| 0 <= j < i ==> self.queue[j] == old(self).queue[j + 1],
                i == 0 ==> self.queue[0] == old(self).queue[0],
                forall|j: int| i < j < QUEUE_CAPACITY ==> self.queue[j] == old(self).queue[j],
                i > 0 ==> self.queue[i as int] is None,
            decreases rear - i,
        {
            let next = duplicate_slot(&self.queue[i + 1]);
            self.queue[i] = next;
            self.queue[i + 1] = None;
            i = i + 1;
        }
        if rear == 1 {
            self.queue[0] = None;
        }
        self.rear = rear - 1;
        proof {
            assert forall|j: int| 0 <= j < self.rear implies self.queue[j] == old(self).queue[j
                + 1] by {}
            assert(self.pending() =~= old(self).pending().drop_first());
        }
        dequeued_song
    }
}

/// The queue after asking to add each of `songs`, in order.
pub open spec fn enqueued_all(q: QueueView, songs: Seq<SongView>) -> QueueView
    decreases songs.len(),
{
    if songs.len() == 0 {
        q
    } else {
        enqueued_all(enqueued(q, songs[0]), songs.drop_first())
    }
}

/// The songs handed out by `n` dequeues, in order.
pub open spec fn handed_out(q: QueueView, n: nat) -> Seq<Option<SongView>>
    decreases n,
{
    if n == 0 {
        Seq::empty()
    } else {
        seq![dequeued_song(q)] + handed_out(dequeued(q), (n - 1) as nat)
    }
}

/// Songs that fit are appended behind the waiting songs, in order.
pub proof fn lemma_enqueued_all(q: QueueView, songs: Seq<SongView>)
    requires
        q.pending.len() + songs.len() <= QUEUE_CAPACITY,
    ensures
        enqueued_all(q, songs).pending == q.pending + songs,
        enqueued_all(q, songs).current == q.current,
    decreases songs.len(),
{
    if songs.len() > 0 {
        let q1 = enqueued(q, songs[0]);
        lemma_enqueued_all(q1, songs.drop_first());
        assert(q1.pending + songs.drop_first() =~= q.pending + songs);
    }
}

/// Dequeuing `n` times hands out the first `n` waiting songs.
pub proof fn lemma_handed_out(q: QueueView, n: nat)
    requires
        n <= q.pending.len(),
    ensures
        handed_out(q, n) == q.pending.take(n as int).map_values(|s: SongView| Some(s)),
    decreases n,
{
    if n > 0 {
        lemma_handed_out(dequeued(q), (n - 1) as nat);
        assert(seq![Some(q.pending[0])] + q.pending.drop_first().take(n - 1).map_values(
            |s: SongView| Some(s),
        ) =~= q.pending.take(n as int).map_values(|s: SongView| Some(s)));
    }
}

/// First in, first out: when the waiting songs and the newly requested
/// `songs` fit in the queue, dequeuing once per song hands out the songs
/// that were waiting and then `songs`, each once, in request order.
pub proof fn lemma_fifo(q: QueueView, songs: Seq<SongView>)
    requires
        q.pending.len() + songs.len() <= QUEUE_CAPACITY,
    ensures
        handed_out(enqueued_all(q, songs), (q.pending.len() + songs.len()) as nat) == (q.pending
            + songs).map_values(|s: SongView| Some(s)),
{
    lemma_enqueued_all(q, songs);
    let q2 = enqueued_all(q, songs);
    lemma_handed_out(q2, (q.pending.len() + songs.len()) as nat);
    assert(q2.pending.take(q2.pending.len() as int) =~= q2.pending);
}

/// Once the queue is empty, a dequeue hands out the current song and the
/// next one hands out nothing.
pub proof fn lemma_drained(q: QueueView)
    requires
        q.pending.len() == 0,
    ensures
        handed_out(q, 2) == seq![q.current, None::<SongView>],
{
    assert(handed_out(dequeued(q), 1) == seq![dequeued_song(dequeued(q))] + handed_out(
        dequeued(dequeued(q)),
        0,
    ));
    assert(handed_out(q, 2) =~= seq![q.current, None::<SongView>]);
}

// ---------------------------------------------------------------------------
// Reading chat lines
// ---------------------------------------------------------------------------

/// A line whose sender can be read: it has a `!`, and the trimmed line can
/// be cut from its byte 1 up to the byte offset that the `!` has in the
/// untrimmed line (both cuts falling between characters of the trimmed line).
pub open spec fn sender_readable(msg: Seq<char>) -> bool {
    let t = text::trim(msg);
    match text::find(msg, seq!['!']) {
        Some(p) => {
            let b = text::byte_offset(msg, p);
            &&& 1 <= b
            &&& text::char_at_byte(t, 1) is Some
            &&& text::char_at_byte(t, b) is Some
        },
        None => false,
    }
}

/// The sender of a chat line: the trimmed line from its byte 1 up to the
/// byte offset of the first `!` in the untrimmed line.
pub open spec fn parsed_sender(msg: Seq<char>) -> Seq<char> {
    let t = text::trim(msg);
    let b = text::byte_offset(msg, text::find(msg, seq!['!'])->0);
    t.subrange(text::char_at_byte(t, 1)->0, text::char_at_byte(t, b)->0)
}

/// The line from its byte 1 on.
pub open spec fn after_first_byte(msg: Seq<char>) -> Seq<char> {
    msg.skip(text::char_at_byte(msg, 1)->0)
}

/// Where the text of a chat line begins, in bytes of the trimmed line: two
/// bytes past the byte offset of the first `:` in the line from its byte 1.
pub open spec fn message_start(msg: Seq<char>) -> int {
    let rest = after_first_byte(msg);
    text::byte_offset(rest, text::find(rest, seq![':'])->0) + 2
}

/// A line whose text can be read: byte 1 falls between two characters, the
/// line from there has a `:`, and the trimmed line can be cut where the
/// text begins.
pub open spec fn message_readable(msg: Seq<char>) -> bool {
    &&& text::char_at_byte(msg, 1) is Some
    &&& text::find(after_first_byte(msg), seq![':']) is Some
    &&& text::char_at_byte(text::trim(msg), message_start(msg)) is Some
}

/// The text of a chat line: the trimmed line from `message_start` on, with
/// every `\r\n` taken out.
pub open spec fn parsed_message(msg: Seq<char>) -> Seq<char> {
    let t = text::trim(msg);
    text::without_crlf(t.skip(text::char_at_byte(t, message_start(msg))->0))
}

/// The byte length of `msg`.
fn byte_len(msg: &str) -> (n: usize)
    ensures
        n == vstd::utf8::encode_utf8(msg@).len(),
{
    msg.as_bytes().len()
}

/// Where the sender lies in `t`, the trimmed `chars`: the character indices
/// of the two cuts, when the line can be cut there.
fn sender_cut(chars: &[char], t: &[char], nbytes: usize) -> (r: Option<(usize, usize)>)
    requires
        vstd::utf8::encode_utf8(chars@).len() == nbytes,
        t@ == text::trim(chars@),
    ensures
        r is Some <==> sender_readable(chars@),
        r matches Some((i, j)) ==> i <= j <= t@.len() && t@.subrange(i as int, j as int)
            == parsed_sender(chars@),
{
    let p = match find_char_exec(chars, '!') {
        Some(p) => p,
        None => {
            return None;
        },
    };
    proof {
        text::lemma_find_from(chars@, seq!['!'], 0);
        text::lemma_byte_offset_ordered(chars@, chars@.len() as int, chars@.len() as int);
    }
    let b = text::byte_offset_exec(chars, p);
    if b < 1 {
        return None;
    }
    let i = match text::char_at_byte_exec(t, 1) {
        Some(i) => i,
        None => {
            return None;
        },
    };
    let j = match text::char_at_byte_exec(t, b) {
        Some(j) => j,
        None => {
            return None;
        },
    };
    proof {
        if j < i {
            text::lemma_byte_offset_increasing(t@, j as int, i as int);
        }
    }
    Some((i, j))
}

/// Where the text lies in `t`, the trimmed `chars`: the character index at
/// which it begins, when the line can be cut there.
fn message_cut(chars: &[char], t: &[char], nbytes: usize) -> (r: Option<usize>)
    requires
        vstd::utf8::encode_utf8(chars@).len() == nbytes,
        t@ == text::trim(chars@),
        exists|a: int, z: int| 0 <= a <= z <= chars@.len() && t@ == chars@.subrange(a, z),
    ensures
        r is Some <==> message_readable(chars@),
        r matches Some(k) ==> k <= t@.len() && text::without_crlf(t@.skip(k as int))
            == parsed_message(chars@),
{
    let q = match text::char_at_byte_exec(chars, 1) {
        Some(q) => q,
        None => {
            return None;
        },
    };
    let rest: &[char] = &chars[q..chars.len()];
    assert(rest@ =~= after_first_byte(chars@));
    let p = match find_char_exec(rest, ':') {
        Some(p) => p,
        None => {
            return None;
        },
    };
    proof {
        text::lemma_find_from(rest@, seq![':'], 0);
        text::lemma_encode_subrange_len(chars@, q as int, chars@.len() as int);
        text::lemma_byte_offset_ordered(rest@, rest@.len() as int, rest@.len() as int);
    }
    let c = text::byte_offset_exec(rest, p);
    proof {
        let (a, z) = choose|a: int, z: int|
            0 <= a <= z <= chars@.len() && t@ == chars@.subrange(a, z);
        text::lemma_encode_subrange_len(chars@, a, z);
        text::lemma_byte_offset_ordered(t@, t@.len() as int, t@.len() as int);
        if text::char_at_byte(t@, c + 2) is Some {
            let k = text::char_at_byte(t@, c + 2)->0;
            text::lemma_byte_offset_ordered(t@, k, t@.len() as int);
        }
    }
    if c > nbytes || nbytes - c < 2 {
        return None;
    }
    text::char_at_byte_exec(t, c + 2)
}

/// The sender of a chat line (see `parsed_sender`).
pub fn parse_sender(msg: &str) -> (r: String)
    requires
        sender_readable(msg@),
    ensures
        r@ == parsed_sender(msg@),
{
    let chars = chars_of(msg);
    let nbytes = byte_len(msg);
    let (start, end) = trim_bounds(&chars, 0, chars.len());
    assert(chars@.subrange(0, chars@.len() as int) =~= msg@);
    let t: &[char] = &chars[start..end];
    match sender_cut(&chars, t, nbytes) {
        Some((i, j)) => string_of(t, i, j),
        None => {
            assert(false);
            String::new()
        },
    }
}

/// The text of a chat line (see `parsed_message`).
pub fn parse_message(msg: &str) -> (r: String)
    requires
        message_readable(msg@),
    ensures
        r@ == parsed_message(msg@),
{
    let chars = chars_of(msg);
    let nbytes = byte_len(msg);
    let (start, end) = trim_bounds(&chars, 0, chars.len());
    assert(chars@.subrange(0, chars@.len() as int) =~= msg@);
    let t: &[char] = &chars[start..end];
    match message_cut(&chars, t, nbytes) {
        Some(k) => {
            let tail: &[char] = &t[k..t.len()];
            assert(tail@ =~= t@.skip(k as int));
            remove_crlf(tail)
        },
        None => {
            assert(false);
            String::new()
        },
    }
}

/// What comes after the first space of `msg`.
pub open spec fn after_first_space(msg: Seq<char>) -> Seq<char> {
    let (_, after) = text::split_once(msg, ' ')->0;
    after
}

/// The second space-separated piece of `msg`.
pub open spec fn second_piece(msg: Seq<char>) -> Seq<char> {
    let rest = after_first_space(msg);
    match text::split_once(rest, ' ') {
        Some((piece, _)) => piece,
        None => rest,
    }
}

/// The command for the chat text `msg` from `sender`, tried prefix by
/// prefix: `!ping`, `!sr ` with a request, `!sr` alone, `!skip`, `!queue`,
/// `!currentsong`, `!volume ` with a number, `!volume`, `!pause` (which
/// asks for the volume), `!play` and the rules command.
pub open spec fn chat_command(msg: Seq<char>, sender: Seq<char>) -> Option<IrcChatView> {
    if text::starts_with(msg, "!ping"@) {
        Some(IrcChatView::Ping)
    } else if text::starts_with(msg, "!sr "@) {
        Some(IrcChatView::Sr((sender, after_first_space(msg))))
    } else if text::starts_with(msg, "!sr"@) {
        Some(IrcChatView::Invalid("Correct usage: !sr <URL>"@))
    } else if text::starts_with(msg, "!skip"@) {
        Some(IrcChatView::SkipSr)
    } else if text::starts_with(msg, "!queue"@) {
        Some(IrcChatView::Queue)
    } else if text::starts_with(msg, "!currentsong"@) {
        Some(IrcChatView::CurrentSong)
    } else if text::starts_with(msg, "!volume "@) {
        match text::parsed_i64(second_piece(msg)) {
            Some(v) => Some(IrcChatView::SetVolume(v)),
            None => Some(IrcChatView::Invalid("Provide number"@)),
        }
    } else if text::starts_with(msg, "!volume"@) {
        Some(IrcChatView::GetVolume)
    } else if text::starts_with(msg, "!pause"@) {
        Some(IrcChatView::GetVolume)
    } else if text::starts_with(msg, "!play"@) {
        Some(IrcChatView::Play)
    } else if text::starts_with(msg, "!\u{642}\u{648}\u{627}\u{646}\u{64a}\u{646}"@) {
        Some(IrcChatView::Rules)
    } else {
        None
    }
}

/// The view of an optional command.
pub open spec fn opt_chat_view(c: Option<IrcChat>) -> Option<IrcChatView> {
    match c {
        Some(c) => Some(c@),
        None => None,
    }
}

/// Whether the characters `chars` begin with `lit`.
fn has_prefix(chars: &[char], lit: &str) -> (b: bool)
    ensures
        b == text::starts_with(chars@, lit@),
{
    let lit_chars = chars_of(lit);
    starts_with_exec(chars, &lit_chars)
}

/// The characters after the first space of `chars`, which has one.
fn after_space(chars: &[char]) -> (r: &[char])
    requires
        text::split_once(chars@, ' ') is Some,
    ensures
        r@ == after_first_space(chars@),
{
    let sp = match find_char_exec(chars, ' ') {
        Some(i) => i,
        None => {
            assert(false);
            0
        },
    };
    proof {
        text::lemma_find_from(chars@, seq![' '], 0);
        assert(text::occurs_at(chars@, seq![' '], sp as int));
        assert(seq![' '].len() == 1);
    }
    assert(sp < chars.len());
    &chars[(sp + 1)..chars.len()]
}

/// The command for the chat text `msg` from `sender` (see `chat_command`).
pub fn chat_command_of(msg: &str, sender: &str) -> (r: Option<IrcChat>)
    ensures
        opt_chat_view(r) == chat_command(msg@, sender@),
{
    let chars = chars_of(msg);
    if has_prefix(&chars, "!ping") {
        Some(IrcChat::Ping)
    } else if has_prefix(&chars, "!sr ") {
        proof {
            reveal_strlit("!sr ");
            assert(chars@.subrange(0, 4) == "!sr "@);
            assert(chars@.subrange(0, 4)[3] == ' ');
            assert(chars@.subrange(3, 4) =~= seq![' ']);
            text::lemma_find_from(chars@, seq![' '], 0);
            assert(text::occurs_at(chars@, seq![' '], 3));
        }
        let song = after_space(&chars);
        let song = string_of(song, 0, song.len());
        assert(song@ =~= after_first_space(msg@));
        Some(IrcChat::Sr((String::from_str(sender), song)))
    } else if has_prefix(&chars, "!sr") {
        Some(IrcChat::Invalid(String::from_str("Correct usage: !sr <URL>")))
    } else if has_prefix(&chars, "!skip") {
        Some(IrcChat::SkipSr)
    } else if has_prefix(&chars, "!queue") {
        Some(IrcChat::Queue)
    } else if has_prefix(&chars, "!currentsong") {
        Some(IrcChat::CurrentSong)
    } else if has_prefix(&chars, "!volume ") {
        proof {
            reveal_strlit("!volume ");
            assert(chars@.subrange(0, 8) == "!volume "@);
            assert(chars@.subrange(0, 8)[7] == ' ');
            assert(chars@.subrange(7, 8) =~= seq![' ']);
            text::lemma_find_from(chars@, seq![' '], 0);
            assert(text::occurs_at(chars@, seq![' '], 7));
        }
        let rest = after_space(&chars);
        let piece: &[char] = match find_char_exec(rest, ' ') {
            Some(j) => {
                proof {
                    text::lemma_find_from(rest@, seq![' '], 0);
                }
                &rest[0..j]
            },
            None => rest,
        };
        assert(piece@ =~= second_piece(msg@));
        match parse_i64(piece) {
            Some(v) => Some(IrcChat::SetVolume(v)),
            None => Some(IrcChat::Invalid(String::from_str("Provide number"))),
        }
    } else if has_prefix(&chars, "!volume") {
        Some(IrcChat::GetVolume)
    } else if has_prefix(&chars, "!pause") {
        Some(IrcChat::GetVolume)
    } else if has_prefix(&chars, "!play") {
        Some(IrcChat::Play)
    } else if has_prefix(&chars, "!\u{642}\u{648}\u{627}\u{646}\u{64a}\u{646}") {
        Some(IrcChat::Rules)
    } else {
        None
    }
}

/// A chat line whose sender and text can both be read.
pub open spec fn privmsg_readable(msg: Seq<char>) -> bool {
    sender_readable(msg) && message_readable(msg)
}

/// The command for a text frame of the chat connection: a `PRIVMSG` line
/// is read for its sender and text; another line that mentions `PING`
/// asks for a ping reply.
pub open spec fn frame_command(msg: Seq<char>) -> Option<IrcChatView> {
    if text::contains(msg, "PRIVMSG"@) {
        chat_command(parsed_message(msg), parsed_sender(msg))
    } else if text::contains(msg, "PING"@) {
        Some(IrcChatView::Ping)
    } else {
        None
    }
}

/// The command for a text frame of the chat connection (see
/// `frame_command`).
pub fn text_frame_command(msg: &str) -> (r: Option<IrcChat>)
    requires
        text::contains(msg@, "PRIVMSG"@) ==> privmsg_readable(msg@),
    ensures
        opt_chat_view(r) == frame_command(msg@),
{
    let chars = chars_of(msg);
    let privmsg = chars_of("PRIVMSG");
    if contains_exec(&chars, &privmsg) {
        let sender = parse_sender(msg);
        let text = parse_message(msg);
        chat_command_of(text.as_str(), sender.as_str())
    } else {
        let ping = chars_of("PING");
        if contains_exec(&chars, &ping) {
            Some(IrcChat::Ping)
        } else {
            None
        }
    }
}

/// Whether a text frame can be read (the `requires` of
/// `text_frame_command`).
pub fn is_readable_frame(msg: &str) -> (b: bool)
    ensures
        b == (text::contains(msg@, "PRIVMSG"@) ==> privmsg_readable(msg@)),
{
    let chars = chars_of(msg);
    let privmsg = chars_of("PRIVMSG");
    if !contains_exec(&chars, &privmsg) {
        return true;
    }
    let nbytes = byte_len(msg);
    let (start, end) = trim_bounds(&chars, 0, chars.len());
    assert(chars@.subrange(0, chars@.len() as int) =~= msg@);
    let t: &[char] = &chars[start..end];
    sender_cut(&chars, t, nbytes).is_some() && message_cut(&chars, t, nbytes).is_some()
}

// ---------------------------------------------------------------------------
// Chat replies
// ---------------------------------------------------------------------------

/// The entry of the queue listing for slot number `k` (counted from 1):
/// ` k- url :: by user` for a song, nothing for an empty slot.
pub open spec fn listing_entry(slot: Option<SongRequest>, k: nat) -> Seq<char> {
    match slot {
        Some(song) => " "@ + text::decimal(k) + "- "@ + song.url@ + " :: by "@ + song.user@,
        None => Seq::empty(),
    }
}

/// The queue listing of the slots `slots`, in slot order.
pub open spec fn listing(slots: Seq<Option<SongRequest>>) -> Seq<char>
    decreases slots.len(),
{
    if slots.len() == 0 {
        Seq::empty()
    } else {
        listing(slots.drop_last()) + listing_entry(slots.last(), slots.len())
    }
}

/// The reply to `!queue`: every filled slot, numbered from 1.
pub fn queue_listing(queue: &Queue) -> (r: String)
    ensures
        r@ == listing(queue.queue@),
{
    let mut r = String::new();
    let mut i: usize = 0;
    assert(queue.queue@.take(0) =~= Seq::<Option<SongRequest>>::empty());
    while i < 20
        invariant
            i <= 20,
            queue.queue@.len() == 20,
            r@ == listing(queue.queue@.take(i as int)),
        decreases 20 - i,
    {
        let ghost before = r@;
        match &queue.queue[i] {
            Some(song) => {
                r.push(' ');
                let number = u64_to_string((i + 1) as u64);
                r.append(number.as_str());
                r.append("- ");
                r.append(song.url.as_str());
                r.append(" :: by ");
                r.append(song.user.as_str());
                proof {
                    reveal_strlit(" ");
                    assert(number@ == text::decimal((i + 1) as nat));
                    assert(queue.queue@[i as int] == Some(*song));
                    assert(r@ =~= before + listing_entry(queue.queue@[i as int], (i + 1) as nat));
                }
            },
            None => {
                assert(r@ =~= before + listing_entry(queue.queue@[i as int], (i + 1) as nat));
            },
        }
        proof {
            let taken = queue.queue@.take(i + 1);
            assert(taken.drop_last() =~= queue.queue@.take(i as int));
            assert(taken.last() == queue.queue@[i as int]);
        }
        i = i + 1;
    }
    assert(queue.queue@.take(20) =~= queue.queue@);
    r
}

/// The reply to `!currentsong`.
pub open spec fn current_song_text(queue: QueueView) -> Seq<char> {
    match queue.current {
        Some(song) => "Current song: "@ + song.title + " - by "@ + song.user,
        None => "No song playing"@,
    }
}

/// The reply to `!currentsong` (see `current_song_text`).
pub fn current_song_reply(queue: &Queue) -> (r: String)
    ensures
        r@ == current_song_text(queue@),
{
    match &queue.current_song {
        Some(song) => {
            let mut r = String::from_str("Current song: ");
            r.append(song.title.as_str());
            r.append(" - by ");
            r.append(song.user.as_str());
            r
        },
        None => String::from_str("No song playing"),
    }
}

/// What a skip says, given the song that the dequeue handed out.
pub open spec fn skip_text(song: Option<SongView>) -> Seq<char> {
    match song {
        Some(s) => "Skipped "@ + s.title,
        None => "Queue is empty"@,
    }
}

/// A skip: takes the next song off the queue and says which song was
/// skipped; the player moves on when a song was handed out.
pub fn skip(queue: &mut Queue) -> (r: (String, bool))
    requires
        old(queue).wf(),
    ensures
        final(queue).wf(),
        final(queue)@ == dequeued(old(queue)@),
        r.0@ == skip_text(dequeued_song(old(queue)@)),
        r.1 == dequeued_song(old(queue)@) is Some,
{
    match queue.dequeue() {
        Some(song) => {
            let mut r = String::from_str("Skipped ");
            r.append(song.title.as_str());
            (r, true)
        },
        None => (String::from_str("Queue is empty"), false),
    }
}

/// The reply to a volume change.
pub fn volume_set_reply(volume: i64) -> (r: String)
    ensures
        r@ == "Volume set to "@ + text::signed_decimal(volume as int),
{
    let mut r = String::from_str("Volume set to ");
    let v = i64_to_string(volume);
    r.append(v.as_str());
    r
}

/// The reply to `!volume`, given what the player said the volume is.
pub fn volume_reply(volume: Option<i64>) -> (r: String)
    ensures
        r@ == match volume {
            Some(v) => "Volume: "@ + text::signed_decimal(v as int),
            None => "No volume"@,
        },
{
    match volume {
        Some(v) => {
            let mut r = String::from_str("Volume: ");
            let digits = i64_to_string(v);
            r.append(digits.as_str());
            r
        },
        None => String::from_str("No volume"),
    }
}

/// The request for a video found by searching.
pub fn song_from_search(sender: &str, title: &str, video_id: &str) -> (r: SongRequest)
    ensures
        r.title@ == title@,
        r.url@ == "https://www.youtube.com/watch/"@ + video_id@,
        r.user@ == sender@,
{
    let mut url = String::from_str("https://www.youtube.com/watch/");
    url.append(video_id);
    SongRequest { title: String::from_str(title), url, user: String::from_str(sender) }
}

/// The request for a linked video whose title is `title`.
pub fn song_from_link(sender: &str, title: &str, video_id: &str) -> (r: SongRequest)
    ensures
        r.title@ == title@,
        r.url@ == "https://youtube.com/watch/"@ + video_id@,
        r.user@ == sender@,
{
    let mut url = String::from_str("https://youtube.com/watch/");
    url.append(video_id);
    SongRequest { title: String::from_str(title), url, user: String::from_str(sender) }
}

/// Queues a requested song and says so; refused when the queue is full.
pub fn request_song<'a>(queue: &'a mut Queue, song: &SongRequest) -> (r: Result<String, &'a str>)
    requires
        old(queue).wf(),
    ensures
        final(queue).wf(),
        final(queue)@ == enqueued(old(queue)@, song@),
        r is Ok <==> old(queue).rear < QUEUE_CAPACITY,
        r matches Ok(reply) ==> reply@ == "Added: "@ + song.title@,
        r matches Err(e) ==> e@ == "queue is full"@,
{
    match queue.enqueue(song) {
        Ok(()) => {
            let mut r = String::from_str("Added: ");
            r.append(song.title.as_str());
            Ok(r)
        },
        Err(e) => Err(e),
    }
}

// ---------------------------------------------------------------------------
// Chat command handling
// ---------------------------------------------------------------------------

/// What the smaller bot does for a chat command.
#[derive(Debug)]
pub enum ChatAction {
    /// Send this line to the channel.
    Reply(String),
    /// Look the song up and queue it: who asked, and what they asked for.
    RequestSong(String, String),
    /// Skip to the next song; nothing is said.
    SkipSong,
    /// Set the player's volume, then send `reply`.
    SetVolume { volume: i64, reply: String },
    /// Read the player's volume and say it (see `volume_reply`).
    ReportVolume,
    /// Pause the player, then send `reply`.
    Pause { reply: String },
    /// Resume the player and say which song plays.
    Resume(SongRequest),
    /// Send the rules, line by line.
    SendRules,
}

/// An action as values.
pub enum ChatActionView {
    Reply(Seq<char>),
    RequestSong(Seq<char>, Seq<char>),
    SkipSong,
    SetVolume { volume: int, reply: Seq<char> },
    ReportVolume,
    Pause { reply: Seq<char> },
    Resume(SongView),
    SendRules,
}

impl View for ChatAction {
    type V = ChatActionView;

    open spec fn view(&self) -> ChatActionView {
        match self {
            ChatAction::Reply(t) => ChatActionView::Reply(t@),
            ChatAction::RequestSong(sender, song) => ChatActionView::RequestSong(sender@, song@),
            ChatAction::SkipSong => ChatActionView::SkipSong,
            ChatAction::SetVolume { volume, reply } => ChatActionView::SetVolume {
                volume: *volume as int,
                reply: reply@,
            },
            ChatAction::ReportVolume => ChatActionView::ReportVolume,
            ChatAction::Pause { reply } => ChatActionView::Pause { reply: reply@ },
            ChatAction::Resume(song) => ChatActionView::Resume(song@),
            ChatAction::SendRules => ChatActionView::SendRules,
        }
    }
}

/// What the smaller bot does for the chat command `chat` with the queue
/// `queue`: `!pong` to a ping; an invalid command's text; a song request
/// looked up; a skip only while a song plays (else `No song playing`); the
/// queue listing; the current song; a volume set and said; the volume
/// read; a pause and `Paused`; a resume of the current song (else `Queue is
/// empty`); the rules.
pub open spec fn chat_action(queue: &Queue, chat: IrcChatView) -> ChatActionView {
    match chat {
        IrcChatView::Invalid(e) => ChatActionView::Reply(e),
        IrcChatView::Ping => ChatActionView::Reply("!pong"@),
        IrcChatView::Sr((sender, song)) => ChatActionView::RequestSong(sender, song),
        IrcChatView::SkipSr => if queue@.current is Some {
            ChatActionView::SkipSong
        } else {
            ChatActionView::Reply("No song playing"@)
        },
        IrcChatView::Queue => ChatActionView::Reply(listing(queue.queue@)),
        IrcChatView::CurrentSong => ChatActionView::Reply(current_song_text(queue@)),
        IrcChatView::SetVolume(v) => ChatActionView::SetVolume {
            volume: v,
            reply: "Volume set to "@ + text::signed_decimal(v),
        },
        IrcChatView::GetVolume => ChatActionView::ReportVolume,
        IrcChatView::Pause => ChatActionView::Pause { reply: "Paused"@ },
        IrcChatView::Play => match queue@.current {
            Some(song) => ChatActionView::Resume(song),
            None => ChatActionView::Reply("Queue is empty"@),
        },
        IrcChatView::Rules => ChatActionView::SendRules,
    }
}

/// What the smaller bot does for a chat command (see `chat_action`).
pub fn chat_step(queue: &Queue, chat: IrcChat) -> (r: ChatAction)
    ensures
        r@ == chat_action(queue, chat@),
{
    match chat {
        IrcChat::Invalid(e) => ChatAction::Reply(e),
        IrcChat::Ping => ChatAction::Reply(String::from_str("!pong")),
        IrcChat::Sr((sender, song)) => ChatAction::RequestSong(sender, song),
        IrcChat::SkipSr => match &queue.current_song {
            Some(_) => ChatAction::SkipSong,
            None => ChatAction::Reply(String::from_str("No song playing")),
        },
        IrcChat::Queue => ChatAction::Reply(queue_listing(queue)),
        IrcChat::CurrentSong => ChatAction::Reply(current_song_reply(queue)),
        IrcChat::SetVolume(v) => ChatAction::SetVolume { volume: v, reply: volume_set_reply(v) },
        IrcChat::GetVolume => ChatAction::ReportVolume,
        IrcChat::Pause => ChatAction::Pause { reply: String::from_str("Paused") },
        IrcChat::Play => match &queue.current_song {
            Some(song) => ChatAction::Resume(song.duplicate()),
            None => ChatAction::Reply(String::from_str("Queue is empty")),
        },
        IrcChat::Rules => ChatAction::SendRules,
    }
}

/// A listing of some slots begins with the listing of their first slots.
pub proof fn lemma_listing_prefix(slots: Seq<Option<SongRequest>>, k: int)
    requires
        0 <= k <= slots.len(),
    ensures
        listing(slots.take(k)).len() <= listing(slots).len(),
        listing(slots).take(listing(slots.take(k)).len() as int) == listing(slots.take(k)),
    decreases slots.len(),
{
    if k == slots.len() {
        assert(slots.take(k) =~= slots);
        assert(listing(slots).take(listing(slots).len() as int) =~= listing(slots));
    } else {
        assert(slots.drop_last().take(k) =~= slots.take(k));
        lemma_listing_prefix(slots.drop_last(), k);
        let a = listing(slots.drop_last());
        let b = listing_entry(slots.last(), slots.len());
        let p = listing(slots.take(k));
        assert((a + b).take(p.len() as int) =~= a.take(p.len() as int));
    }
}

/// The reply to the queue command is the queue listing whatever song
/// plays: two queues with the same slots get the same reply, it is what
/// `queue_listing` writes, and when the first slot holds a song the reply
/// begins with ` 1- `, that song's link, ` :: by ` and who asked for it.
pub proof fn lemma_queue_reply(q1: &Queue, q2: &Queue)
    requires
        q1.queue@ == q2.queue@,
    ensures
        chat_action(q1, IrcChatView::Queue) == chat_action(q2, IrcChatView::Queue),
        chat_action(q1, IrcChatView::Queue) == ChatActionView::Reply(listing(q1.queue@)),
        q1.queue@[0] matches Some(song) ==> chat_action(q1, IrcChatView::Queue) matches ChatActionView::Reply(r)
            && r.take((4 + song.url@.len() + 7 + song.user@.len()) as int) == " 1- "@ + song.url@
            + " :: by "@ + song.user@,
{
    if q1.queue@[0] is Some {
        let song = q1.queue@[0]->0;
        let slots = q1.queue@;
        lemma_listing_prefix(slots, 1);
        let first = slots.take(1);
        assert(first.drop_last() =~= Seq::<Option<SongRequest>>::empty());
        assert(first.last() == slots[0]);
        reveal_strlit(" ");
        reveal_strlit("- ");
        reveal_strlit(" 1- ");
        reveal_strlit(" :: by ");
        assert(text::decimal(1) =~= seq!['1']) by {
            assert(text::digit_char(1) == '1');
        }
        assert(listing(first.drop_last()) =~= Seq::<char>::empty());
        assert(listing(first) == listing(first.drop_last()) + listing_entry(first.last(), 1));
        assert(" "@ + text::decimal(1) + "- "@ =~= " 1- "@);
        assert(listing(first) =~= " 1- "@ + song.url@ + " :: by "@ + song.user@);
    }
}

/// What each chat command does: a ping is answered `!pong`, an invalid
/// command with its own text, a song request is looked up for its sender;
/// a volume is set and said; a skip happens exactly while a song plays,
/// and `!play` resumes exactly the song that plays; only the queue and
/// song commands look at the queue.
pub proof fn lemma_chat_actions(q1: &Queue, q2: &Queue, chat: IrcChatView)
    ensures
        !(chat is SkipSr || chat is Queue || chat is CurrentSong || chat is Play) ==> chat_action(
            q1,
            chat,
        ) == chat_action(q2, chat),
        chat_action(q1, IrcChatView::Ping) == ChatActionView::Reply("!pong"@),
        chat matches IrcChatView::Invalid(e) ==> chat_action(q1, chat) == ChatActionView::Reply(e),
        chat matches IrcChatView::Sr((sender, song)) ==> chat_action(q1, chat)
            == ChatActionView::RequestSong(sender, song),
        chat matches IrcChatView::SetVolume(v) ==> chat_action(q1, chat) == (
        ChatActionView::SetVolume { volume: v, reply: "Volume set to "@ + text::signed_decimal(v) }),
        (chat_action(q1, IrcChatView::SkipSr) is SkipSong) == (q1@.current is Some),
        q1@.current matches Some(song) ==> chat_action(q1, IrcChatView::Play)
            == ChatActionView::Resume(song),
        q1@.current is None ==> chat_action(q1, IrcChatView::Play) == ChatActionView::Reply(
            "Queue is empty"@,
        ) && chat_action(q1, IrcChatView::SkipSr) == ChatActionView::Reply("No song playing"@),
{
}

} // verus!
