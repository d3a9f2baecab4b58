//! Values of the Twitch API that the bots read and send, the EventSub
//! subscription bodies of the smaller bot, and the decisions around the
//! access token, VIP lookups and ad breaks.

use vstd::prelude::*;

use crate::text;
use crate::text::{chars_of, contains_exec, split_char, str_eq};

verus! {

/// The page cursor of a Twitch API reply.
#[derive(Debug)]
pub struct Pagination {
    pub cursor: Option<String>,
}

/// The reply of the streams endpoint.
#[derive(Debug)]
pub struct TwitchApiResponse {
    pub data: Vec<TwitchChannelInfo>,
    pub pagination: Option<Pagination>,
}

/// A live stream as the streams endpoint describes it.
#[derive(Debug)]
pub struct TwitchChannelInfo {
    pub id: String,
    pub user_id: String,
    pub title: String,
    pub game_name: String,
    pub started_at: String,
    pub user_login: String,
    pub user_name: String,
    pub stream_type: String,
    pub viewer_count: u32,
    pub game_id: String,
    pub language: String,
    pub thumbnail_url: String,
    pub tag_ids: Option<Vec<String>>,
    pub is_mature: bool,
}

/// The reply of the channels endpoint.
#[derive(Debug)]
pub struct GetChannelInfo {
    pub data: Vec<TwitchChannelInfo>,
}

/// A channel as the channels endpoint describes it.
#[derive(Debug)]
pub struct TwitchGetChannelInfo {
    pub broadcaster_id: String,
    pub title: String,
    pub game_name: String,
    pub broadcaster_login: String,
    pub broadcaster_name: String,
    pub game_id: String,
    pub broadcaster_language: String,
}

/// The reply to starting a commercial break.
#[derive(Debug)]
pub struct TwitchAd {
    pub data: Vec<AdData>,
}

/// One commercial break: its length, a message, and the seconds until the
/// next one may start.
#[derive(Debug)]
pub struct AdData {
    pub length: i32,
    pub message: String,
    pub retry_after: i64,
}

/// The condition of an EventSub subscription.
#[derive(Debug)]
pub struct WsCondition {
    pub broadcaster_user_id: String,
}

/// Where EventSub delivers: the method and the websocket session.
#[derive(Debug)]
pub struct WsTransport {
    pub method: String,
    pub session_id: String,
}

/// The user and broadcaster of an EventSub event.
#[derive(Debug)]
pub struct WsEvent {
    pub user_id: Option<String>,
    pub user_login: Option<String>,
    pub user_name: Option<String>,
    pub broadcaster_user_id: String,
    pub broadcaster_user_login: String,
    pub broadcaster_user_name: String,
}

/// The condition of a subscription request.
#[derive(Debug)]
pub struct EventSubCondition {
    pub broadcaster_user_id: String,
}

/// A subscription request: the event type, its version, the condition and
/// the transport.
#[derive(Debug)]
pub struct EventSub {
    pub sub_type: String,
    pub version: u8,
    pub condition: EventSubCondition,
    pub transport: WsTransport,
}

/// The channel whose events the smaller bot subscribes to.
pub open spec fn channel_id() -> Seq<char> {
    "143306668"@
}

/// The subscription to the events of type `sub_type` for a websocket
/// session.
pub open spec fn is_channel_subscription(e: EventSub, sub_type: Seq<char>, session_id: Seq<
    char,
>) -> bool {
    &&& e.sub_type@ == sub_type
    &&& e.version == 1
    &&& e.condition.broadcaster_user_id@ == channel_id()
    &&& e.transport.method@ == "websocket"@
    &&& e.transport.session_id@ == session_id
}

/// A version-1 subscription to `sub_type` for the channel, delivered over
/// the websocket session `session_id`.
fn channel_subscription(sub_type: &str, session_id: String) -> (r: EventSub)
    ensures
        is_channel_subscription(r, sub_type@, session_id@),
{
    EventSub {
        sub_type: String::from_str(sub_type),
        version: 1,
        condition: EventSubCondition { broadcaster_user_id: String::from_str("143306668") },
        transport: WsTransport { method: String::from_str("websocket"), session_id },
    }
}

/// The subscription to the channel going live.
pub fn online_event(session_id: String) -> (r: EventSub)
    ensures
        is_channel_subscription(r, "stream.online"@, session_id@),
{
    channel_subscription("stream.online", session_id)
}

/// The subscription to the channel going offline.
pub fn offline_event(session_id: String) -> (r: EventSub)
    ensures
        is_channel_subscription(r, "stream.offline"@, session_id@),
{
    channel_subscription("stream.offline", session_id)
}

/// How long a validated access token is trusted, in milliseconds.
pub const TOKEN_LIFETIME_MS: i64 = 3_600_000;

/// What to do before handing out the access token.
#[derive(Debug, PartialEq, Eq, Structural)]
pub enum TokenStep {
    /// The token was validated less than an hour ago: hand it out.
    Fresh,
    /// Ask Twitch whether the token is still valid (and refresh it if not).
    Validate,
}

/// A token trusted until `expires_at_ms` is fresh at `now_ms` while its
/// expiry lies after now.
pub open spec fn token_fresh(expires_at_ms: int, now_ms: int) -> bool {
    expires_at_ms > now_ms
}

/// The step for a token trusted until `expires_at_ms`, at `now_ms`
/// (milliseconds since the epoch; see `token_fresh`).
pub fn token_step(expires_at_ms: i64, now_ms: i64) -> (r: TokenStep)
    ensures
        r == (if token_fresh(expires_at_ms as int, now_ms as int) {
            TokenStep::Fresh
        } else {
            TokenStep::Validate
        }),
{
    if expires_at_ms > now_ms {
        TokenStep::Fresh
    } else {
        TokenStep::Validate
    }
}

/// The expiry of a token validated (or refreshed) at `now_ms`: an hour
/// later.
pub fn next_expiry(now_ms: i64) -> (r: i64)
    requires
        now_ms <= i64::MAX - TOKEN_LIFETIME_MS,
    ensures
        r == now_ms + TOKEN_LIFETIME_MS,
{
    now_ms + TOKEN_LIFETIME_MS
}

/// A token validated at `now_ms` is handed out without asking Twitch again
/// for the next hour, and is validated again from then on.
pub proof fn lemma_validated_for_an_hour(now_ms: int, later_ms: int)
    requires
        now_ms <= later_ms,
    ensures
        token_fresh(now_ms + TOKEN_LIFETIME_MS, later_ms) <==> later_ms < now_ms
            + TOKEN_LIFETIME_MS,
{
}

/// Whether the user with id `user_id` is a VIP, given the user id that the
/// VIP list returned for them (none when they are not listed).
pub fn is_vip_reply(user_id: &str, listed: Option<&str>) -> (b: bool)
    ensures
        b == match listed {
            Some(id) => id@ == user_id@,
            None => false,
        },
{
    match listed {
        Some(id) => str_eq(user_id, id),
        None => false,
    }
}

/// The seconds until the next commercial break may start, from the reply
/// to starting one.
pub fn retry_after(ad: &TwitchAd) -> (r: i64)
    requires
        ad.data@.len() > 0,
    ensures
        r == ad.data@[0].retry_after,
{
    ad.data[0].retry_after
}

/// Whether switching to the scene `scene` starts a commercial break: only
/// the `Random` scene does.
pub fn ads_for_scene(scene: &str) -> (b: bool)
    ensures
        b == (scene@ == "Random"@),
{
    str_eq(scene, "Random")
}

/// Whether a failure to start a commercial break is only logged: Twitch
/// refused because breaks came too often. Any other failure stops the bot.
pub fn ad_error_tolerated(error: &str) -> (b: bool)
    ensures
        b == text::contains(error@, "too many requests"@),
{
    let chars = chars_of(error);
    let pat = chars_of("too many requests");
    contains_exec(&chars, &pat)
}

/// The tokens file of the smaller bot holds the refresh token and the
/// access token on its first two lines.
pub open spec fn token_lines_present(contents: Seq<char>) -> bool {
    text::split_all(contents, '\n').len() >= 2
}

/// What the tokens file `refresh` and `access` are written as.
pub open spec fn token_file_text(refresh: Seq<char>, access: Seq<char>) -> Seq<char> {
    refresh + seq!['\n'] + access
}

/// The text of the tokens file for a refresh token and an access token.
pub fn token_file(refresh: &str, access: &str) -> (r: String)
    ensures
        r@ == token_file_text(refresh@, access@),
{
    let mut r = String::from_str(refresh);
    r.push('\n');
    r.append(access);
    r
}

/// Whether the tokens file holds two lines (see `token_lines_present`).
pub fn has_token_lines(contents: &str) -> (b: bool)
    ensures
        b == token_lines_present(contents@),
{
    let chars = chars_of(contents);
    split_char(&chars, '\n').len() >= 2
}

/// The refresh token and the access token that the tokens file holds: its
/// first and its second line.
pub fn tokens_from_file(contents: &str) -> (r: (String, String))
    requires
        token_lines_present(contents@),
    ensures
        r.0@ == text::split_all(contents@, '\n')[0],
        r.1@ == text::split_all(contents@, '\n')[1],
{
    let chars = chars_of(contents);
    let lines = split_char(&chars, '\n');
    assert(lines@.map_values(|l: String| l@)[0] == lines@[0]@);
    assert(lines@.map_values(|l: String| l@)[1] == lines@[1]@);
    (lines[0].clone(), lines[1].clone())
}

/// `s` has no line feed.
pub open spec fn single_line(s: Seq<char>) -> bool {
    forall|i: int| 0 <= i < s.len() ==> s[i] != '\n'
}

/// The pieces of a text without line feeds: the text itself.
proof fn lemma_split_single_line(s: Seq<char>)
    requires
        single_line(s),
    ensures
        text::split_all(s, '\n') == seq![s],
{
    text::lemma_find_from(s, seq!['\n'], 0);
    if text::find(s, seq!['\n']) is Some {
        let i = text::find(s, seq!['\n'])->0;
        assert(s.subrange(i, i + 1)[0] == s[i]);
    }
}

/// A read gives back what a write wrote: the tokens file written for two
/// one-line tokens is read back as the same two tokens.
pub proof fn lemma_token_file_round_trip(refresh: Seq<char>, access: Seq<char>)
    requires
        single_line(refresh),
        single_line(access),
    ensures
        token_lines_present(token_file_text(refresh, access)),
        text::split_all(token_file_text(refresh, access), '\n')[0] == refresh,
        text::split_all(token_file_text(refresh, access), '\n')[1] == access,
{
    let s = token_file_text(refresh, access);
    let n = refresh.len() as int;
    text::lemma_find_from(s, seq!['\n'], 0);
    assert(s.subrange(n, n + 1) =~= seq!['\n']);
    assert(text::occurs_at(s, seq!['\n'], n));
    assert forall|j: int| 0 <= j < n implies !text::occurs_at(s, seq!['\n'], j) by {
        assert(s[j] == refresh[j]);
        assert(s.subrange(j, j + 1)[0] == s[j]);
    }
    let i = text::find(s, seq!['\n'])->0;
    assert(i == n);
    assert(s.subrange(0, n) =~= refresh);
    assert(s.subrange(n + 1, s.len() as int) =~= access);
    lemma_split_single_line(access);
}

} // verus!
