//! The song-request queue: at most twenty waiting songs behind the song
//! that is playing, served first in, first out.

use vstd::prelude::*;

use crate::text;
use crate::text::{chars_of, starts_with_exec};
use crate::youtube::VideoInfo;

verus! {

/// The number of waiting songs the queue holds.
pub const QUEUE_CAPACITY: usize = 20;

/// A song that a chatter asked for.
#[derive(Debug, Clone)]
pub struct SongRequest {
    pub title: String,
    pub url: String,
    pub id: String,
    pub user: String,
}

/// A song request as character sequences.
pub struct SongView {
    pub title: Seq<char>,
    pub url: Seq<char>,
    pub id: Seq<char>,
    pub user: Seq<char>,
}

impl View for SongRequest {
    type V = SongView;

    open spec fn view(&self) -> SongView {
        SongView { title: self.title@, url: self.url@, id: self.id@, user: self.user@ }
    }
}

impl SongRequest {
    /// A request with the same fields.
    pub fn duplicate(&self) -> (r: SongRequest)
        ensures
            r == *self,
    {
        SongRequest {
            title: self.title.clone(),
            url: self.url.clone(),
            id: self.id.clone(),
            user: self.user.clone(),
        }
    }
}

/// A copy of a queue slot.
pub fn duplicate_slot(slot: &Option<SongRequest>) -> (r: Option<SongRequest>)
    ensures
        r == *slot,
{
    match slot {
        Some(song) => Some(song.duplicate()),
        None => None,
    }
}

/// Why a song could not be queued or resolved.
#[derive(Debug)]
pub enum SongRequestsError {
    /// The queue already holds twenty songs.
    QueueFull,
    /// The link is not one of the YouTube link forms.
    InvalidYoutubeUrl,
}

/// The text of a song-request error.
pub open spec fn error_text(e: SongRequestsError) -> Seq<char> {
    match e {
        SongRequestsError::QueueFull => "queue is full"@,
        SongRequestsError::InvalidYoutubeUrl => "Not A Valid Youtube URL"@,
    }
}

impl SongRequestsError {
    /// The text of the error (see `error_text`).
    pub fn message(&self) -> (r: String)
        ensures
            r@ == error_text(*self),
    {
        match self {
            SongRequestsError::QueueFull => String::from_str("queue is full"),
            SongRequestsError::InvalidYoutubeUrl => String::from_str("Not A Valid Youtube URL"),
        }
    }
}

/// What the queue task answers to a song request: the request's own reply
/// when it was queued, and the invalid-link line whatever made it fail.
pub fn sr_answer<E>(outcome: &Result<String, E>) -> (r: String)
    ensures
        match outcome {
            Ok(m) => r@ == m@,
            Err(_) => r@ == "Not a valid youtube URL"@,
        },
{
    match outcome {
        Ok(m) => m.clone(),
        Err(_) => String::from_str("Not a valid youtube URL"),
    }
}

/// The song-request queue: `queue[..rear]` are the waiting songs, oldest
/// first, and `current_song` is the song taken off the queue last.
#[derive(Debug)]
pub struct Queue {
    pub current_song: Option<SongRequest>,
    pub queue: [Option<SongRequest>; 20],
    pub rear: usize,
}

/// The queue as values: the current song and the waiting songs in order.
pub struct QueueView {
    pub current: Option<SongView>,
    pub pending: Seq<SongView>,
}

/// The view of an optional song.
pub open spec fn opt_song_view(s: Option<SongRequest>) -> Option<SongView> {
    match s {
        Some(song) => Some(song@),
        None => None,
    }
}

impl Queue {
    /// The waiting songs occupy the first `rear` slots; the other slots are
    /// empty.
    pub open spec fn wf(&self) -> bool {
        &&& self.rear <= QUEUE_CAPACITY
        &&& forall|i: int| 0 <= i < self.rear ==> self.queue[i] is Some
        &&& forall|i: int| self.rear <= i < QUEUE_CAPACITY ==> self.queue[i] is None
    }

    /// The waiting songs, oldest first.
    pub open spec fn pending(&self) -> Seq<SongView> {
        Seq::new(self.rear as nat, |i: int| self.queue[i]->0@)
    }
}

impl View for Queue {
    type V = QueueView;

    open spec fn view(&self) -> QueueView {
        QueueView { current: opt_song_view(self.current_song), pending: self.pending() }
    }
}

/// The queue after asking to add `song`: unchanged when full.
pub open spec fn enqueued(q: QueueView, song: SongView) -> QueueView {
    if q.pending.len() >= QUEUE_CAPACITY {
        q
    } else {
        QueueView { current: q.current, pending: q.pending.push(song) }
    }
}

/// The queue after taking the oldest waiting song, which becomes current.
pub open spec fn dequeued(q: QueueView) -> QueueView {
    QueueView { current: Some(q.pending[0]), pending: q.pending.drop_first() }
}

/// The queue after a song ended: with no waiting songs, nothing is current.
pub open spec fn current_cleared(q: QueueView) -> QueueView {
    if q.pending.len() == 0 {
        QueueView { current: None, pending: q.pending }
    } else {
        q
    }
}

impl Queue {
    /// An empty queue with no current song.
    pub fn new() -> (q: Queue)
        ensures
            q.wf(),
            q@.current is None,
            q@.pending.len() == 0,
    {
        Queue {
            current_song: None,
            queue: [
                None,
                None,
                None,
                None,
                None,
                None,
                None,
                None,
                None,
                None,
                None,
                None,
                None,
                None,
                None,
                None,
                None,
                None,
                None,
                None,
            ],
            rear: 0,
        }
    }

    /// Adds `item` behind the waiting songs; refused when twenty are waiting.
    pub fn enqueue(&mut self, item: &SongRequest) -> (r: Result<(), SongRequestsError>)
        requires
            old(self).wf(),
        ensures
            final(self).wf(),
            final(self)@ == enqueued(old(self)@, item@),
            r is Ok <==> old(self).rear < QUEUE_CAPACITY,
            r matches Err(e) ==> e is QueueFull,
    {
        if self.rear >= 20 {
            return Err(SongRequestsError::QueueFull);
        }
        let rear = self.rear;
        self.queue[rear] = Some(item.duplicate());
        self.rear = rear + 1;
        assert(self.pending() =~= old(self).pending().push(item@));
        Ok(())
    }

    /// Takes the oldest waiting song off the queue; it becomes the current
    /// song.
    pub fn dequeue(&mut self)
        requires
            old(self).wf(),
            old(self).rear > 0,
        ensures
            final(self).wf(),
            final(self)@ == dequeued(old(self)@),
    {
        self.current_song = duplicate_slot(&self.queue[0]);
        let rear = self.rear;
        let mut i: usize = 0;
        while i < rear - 1
            invariant
                rear == old(self).rear,
                0 < rear <= QUEUE_CAPACITY,
                self.rear == rear,
                i < rear,
                self.current_song == old(self).queue[0],
                forall|j: int| 0 <= j < i ==> self.queue[j] == old(self).queue[j + 1],
                i == 0 ==> self.queue[0] == old(self).queue[0],
                forall|j: int| i < j < QUEUE_CAPACITY ==> self.queue[j] == old(self).queue[j],
                i > 0 ==> self.queue[i as int] is None,
            decreases rear - i,
        {
            let next = duplicate_slot(&self.queue[i + 1]);
            self.queue[i] = next;
            self.queue[i + 1] = None;
            i = i + 1;
        }
        if rear == 1 {
            self.queue[0] = None;
        }
        self.rear = rear - 1;
        proof {
            assert forall|j: int| 0 <= j < self.rear implies self.queue[j] == old(self).queue[j
                + 1] by {}
            assert(self.pending() =~= old(self).pending().drop_first());
        }
    }

    /// Forgets the current song once no song is waiting.
    pub fn clear_current_song(&mut self)
        requires
            old(self).wf(),
        ensures
            final(self).wf(),
            final(self)@ == current_cleared(old(self)@),
    {
        if self.rear == 0 {
            self.current_song = None;
        }
        assert(self.pending() =~= old(self).pending());
    }
}

impl Queue {
    /// A queue with the same songs.
    pub fn duplicate(&self) -> (r: Queue)
        ensures
            r.current_song == self.current_song,
            r.queue@ == self.queue@,
            r.rear == self.rear,
    {
        let mut r = Queue::new();
        let mut i: usize = 0;
        while i < 20
            invariant
                i <= 20,
                r.queue@.len() == 20,
                self.queue@.len() == 20,
                forall|j: int| 0 <= j < i ==> r.queue@[j] == self.queue@[j],
            decreases 20 - i,
        {
            r.queue[i] = duplicate_slot(&self.queue[i]);
            i = i + 1;
        }
        r.current_song = duplicate_slot(&self.current_song);
        r.rear = self.rear;
        assert(r.queue@ =~= self.queue@);
        r
    }
}

/// A request to the task that owns the song queue.
#[derive(Debug)]
pub enum QueueMessage {
    /// A copy of the whole queue.
    GetQueue,
    /// A copy of the current song.
    GetCurrentSong,
    /// Queue a song.
    Enqueue(SongRequest),
    /// The player took the next song.
    Dequeue,
    /// The player went idle.
    ClearCurrentSong,
}

/// The answer of the task that owns the song queue.
#[derive(Debug)]
pub enum QueueReply {
    /// The queue as it is.
    Queue(Queue),
    /// The current song.
    CurrentSong(Option<SongRequest>),
    /// The request was carried out.
    Done,
    /// The song could not be queued; the task stops.
    Refused(SongRequestsError),
}

/// Carries out one request to the task that owns the song queue. A
/// `Dequeue` needs a waiting song.
pub fn handle_queue_message(queue: &mut Queue, msg: QueueMessage) -> (r: QueueReply)
    requires
        old(queue).wf(),
        msg is Dequeue ==> old(queue).rear > 0,
    ensures
        final(queue).wf(),
        match msg {
            QueueMessage::GetQueue => {
                &&& *final(queue) == *old(queue)
                &&& r matches QueueReply::Queue(copy) && copy@ == old(queue)@ && copy.wf()
            },
            QueueMessage::GetCurrentSong => {
                &&& *final(queue) == *old(queue)
                &&& r matches QueueReply::CurrentSong(song) && opt_song_view(song) == old(
                    queue,
                )@.current
            },
            QueueMessage::Enqueue(song) => final(queue)@ == enqueued(old(queue)@, song@) && (if old(
                queue,
            ).rear < QUEUE_CAPACITY {
                r is Done
            } else {
                r matches QueueReply::Refused(e) && e is QueueFull
            }),
            QueueMessage::Dequeue => final(queue)@ == dequeued(old(queue)@) && r is Done,
            QueueMessage::ClearCurrentSong => final(queue)@ == current_cleared(old(queue)@)
                && r is Done,
        },
{
    match msg {
        QueueMessage::GetQueue => {
            let copy = queue.duplicate();
            assert(copy.pending() =~= queue.pending());
            QueueReply::Queue(copy)
        },
        QueueMessage::GetCurrentSong => QueueReply::CurrentSong(duplicate_slot(&queue.current_song)),
        QueueMessage::Enqueue(song) => match queue.enqueue(&song) {
            Ok(()) => QueueReply::Done,
            Err(e) => QueueReply::Refused(e),
        },
        QueueMessage::Dequeue => {
            queue.dequeue();
            QueueReply::Done
        },
        QueueMessage::ClearCurrentSong => {
            queue.clear_current_song();
            QueueReply::Done
        },
    }
}

/// The queue after asking to add each of `songs`, in order.
pub open spec fn enqueued_all(q: QueueView, songs: Seq<SongView>) -> QueueView
    decreases songs.len(),
{
    if songs.len() == 0 {
        q
    } else {
        enqueued_all(enqueued(q, songs[0]), songs.drop_first())
    }
}

/// The songs that become current over `n` dequeues, in order.
pub open spec fn served(q: QueueView, n: nat) -> Seq<SongView>
    decreases n,
{
    if n == 0 {
        Seq::empty()
    } else {
        seq![q.pending[0]] + served(dequeued(q), (n - 1) as nat)
    }
}

/// Songs that fit are appended behind the waiting songs, in order.
pub proof fn lemma_enqueued_all(q: QueueView, songs: Seq<SongView>)
    requires
        q.pending.len() + songs.len() <= QUEUE_CAPACITY,
    ensures
        enqueued_all(q, songs).pending == q.pending + songs,
        enqueued_all(q, songs).current == q.current,
    decreases songs.len(),
{
    if songs.len() > 0 {
        let q1 = enqueued(q, songs[0]);
        lemma_enqueued_all(q1, songs.drop_first());
        assert(q1.pending + songs.drop_first() =~= q.pending + songs);
    }
}

/// Dequeuing `n` times serves the first `n` waiting songs.
pub proof fn lemma_served(q: QueueView, n: nat)
    requires
        n <= q.pending.len(),
    ensures
        served(q, n) == q.pending.take(n as int),
    decreases n,
{
    if n > 0 {
        lemma_served(dequeued(q), (n - 1) as nat);
        assert(seq![q.pending[0]] + q.pending.drop_first().take(n - 1) =~= q.pending.take(
            n as int,
        ));
    }
}

/// First in, first out: when the waiting songs and the newly requested
/// `songs` fit in the queue, dequeuing until it is empty serves the songs
/// that were waiting and then `songs`, each once, in request order.
pub proof fn lemma_fifo(q: QueueView, songs: Seq<SongView>)
    requires
        q.pending.len() + songs.len() <= QUEUE_CAPACITY,
    ensures
        served(enqueued_all(q, songs), (q.pending.len() + songs.len()) as nat) == q.pending
            + songs,
        enqueued_all(q, songs).pending.len() == q.pending.len() + songs.len(),
{
    lemma_enqueued_all(q, songs);
    let q2 = enqueued_all(q, songs);
    lemma_served(q2, (q.pending.len() + songs.len()) as nat);
    assert(q2.pending.take(q2.pending.len() as int) =~= q2.pending);
}

/// What `html_escape::decode_html_entities` returns for the text `s`.
pub uninterp spec fn html_entities_decoded(s: Seq<char>) -> Seq<char>;

/// Calls `html_escape::decode_html_entities`, which replaces the HTML
/// character references in a text (`&amp;`, `&#39;`, ...) by the characters
/// they stand for; the result is a function of the text, and which text it
/// is is left to the name `html_entities_decoded`.
#[verifier::external_body]
fn decode_html_entities(s: &str) -> (r: String)
    ensures
        r@ == html_entities_decoded(s@),
{
    html_escape::decode_html_entities(s).into_owned()
}

/// What a song request asks for.
#[derive(Debug)]
pub enum SrTarget {
    /// Words to search YouTube for.
    Search(String),
    /// The id of a linked YouTube video.
    Link(String),
}

/// Song requests that `sr_target` accepts: a link is one that
/// `video_id_from_url` can slice.
pub open spec fn sr_request_accepted(song: Seq<char>) -> bool {
    text::starts_with(song, "https://"@) ==> crate::youtube::video_url_sliceable(song)
}

/// Tells a search from a link: a request that does not start with
/// `https://` is searched for; a link must carry a video id.
pub fn sr_target(song: &str) -> (r: Result<SrTarget, SongRequestsError>)
    requires
        sr_request_accepted(song@),
    ensures
        !text::starts_with(song@, "https://"@) ==> (r matches Ok(SrTarget::Search(q)) && q@
            == song@),
        text::starts_with(song@, "https://"@) ==> match crate::youtube::video_id(song@) {
            Some(id) => r matches Ok(SrTarget::Link(l)) && l@ == id,
            None => r matches Err(e) && e is InvalidYoutubeUrl,
        },
{
    let chars = chars_of(song);
    let https = chars_of("https://");
    if !starts_with_exec(&chars, &https) {
        return Ok(SrTarget::Search(String::from_str(song)));
    }
    match crate::youtube::video_id_from_url(song) {
        Ok(id) => Ok(SrTarget::Link(String::from_str(id))),
        Err(e) => Err(e),
    }
}

/// The request for a video found by searching.
pub fn song_from_search(sender: &str, video: VideoInfo) -> (r: SongRequest)
    ensures
        r.title@ == video.title@,
        r.url@ == "https://www.youtube.com/watch/"@ + video.id@,
        r.id@ == video.id@,
        r.user@ == sender@,
{
    let mut url = String::from_str("https://www.youtube.com/watch/");
    url.append(video.id.as_str());
    SongRequest { title: video.title, url, id: video.id, user: String::from_str(sender) }
}

/// The request for a linked video whose title is `title`.
pub fn link_song(sender: &str, video_id: &str, title: &str) -> (r: SongRequest)
    ensures
        r.title@ == title@,
        r.url@ == "https://youtube.com/watch/"@ + video_id@,
        r.id@ == video_id@,
        r.user@ == sender@,
{
    let mut url = String::from_str("https://youtube.com/watch/");
    url.append(video_id);
    SongRequest {
        title: String::from_str(title),
        url,
        id: String::from_str(video_id),
        user: String::from_str(sender),
    }
}

/// The request for a linked video, from the title that YouTube returned
/// (HTML character references in it are decoded).
pub fn song_from_link(sender: &str, video_id: &str, fetched_title: &str) -> (r: SongRequest)
    ensures
        r.title@ == html_entities_decoded(fetched_title@),
        r.url@ == "https://youtube.com/watch/"@ + video_id@,
        r.id@ == video_id@,
        r.user@ == sender@,
{
    let title = decode_html_entities(fetched_title);
    link_song(sender, video_id, title.as_str())
}

/// The chat reply for a queued song.
pub fn added_reply(song: &SongRequest) -> (r: String)
    ensures
        r@ == "Added: "@ + song.title@,
{
    let mut r = String::from_str("Added: ");
    r.append(song.title.as_str());
    r
}

} // verus!
