//! YouTube links: finding the video id in the link forms that chatters use.

use vstd::prelude::*;

use crate::song_requests::SongRequestsError;
use crate::json::{element_in, field_in, json_at_index, json_in, json_str, opt_text, str_of};
use crate::text;
use crate::text::{chars_of, find_char_exec, find_from_exec, rfind_char_exec};

verus! {

/// A video found by a search.
#[derive(Debug)]
pub struct VideoInfo {
    pub id: String,
    pub title: String,
}

/// The links whose id can be taken without slicing backwards: a link with
/// both `?v=` and `&` has its first `&` at least three characters after
/// its first `?v=`.
pub open spec fn video_url_sliceable(url: Seq<char>) -> bool {
    text::contains(url, "?v="@) && text::contains(url, seq!['&']) ==> text::find(url, "?v="@)->0
        + 3 <= text::find(url, seq!['&'])->0
}

/// The video id of a YouTube link: what follows `?v=` up to the first `&`
/// (or to the end), else, for `/watch/` and `https://youtu.be` links, what
/// follows the last `/`; `None` for anything else.
pub open spec fn video_id(url: Seq<char>) -> Option<Seq<char>> {
    if text::contains(url, "?v="@) && text::contains(url, seq!['&']) {
        Some(url.subrange(text::find(url, "?v="@)->0 + 3, text::find(url, seq!['&'])->0))
    } else if text::contains(url, "?v="@) {
        Some(url.subrange(text::find(url, "?v="@)->0 + 3, url.len() as int))
    } else if text::contains(url, "/watch/"@) || text::contains(url, "https://youtu.be"@) {
        let (_, last) = text::rsplit_once(url, '/')->0;
        Some(last)
    } else {
        None
    }
}

/// The id of a link with `?v=` and `&` ends at the first `&`: it is the
/// text right after the first `?v=`, holds no `&`, and is followed in the
/// link by a `&`.
pub proof fn lemma_video_id_ends_at_ampersand(url: Seq<char>, v: int)
    requires
        text::occurs_at(url, "?v="@, v),
        forall|k: int| 0 <= k < v ==> !text::occurs_at(url, "?v="@, k),
        text::contains(url, seq!['&']),
        video_url_sliceable(url),
    ensures
        video_id(url) matches Some(id) && v + 3 + id.len() < url.len() && url.subrange(
            v + 3,
            v + 3 + id.len(),
        ) == id && url[v + 3 + id.len()] == '&' && forall|j: int| 0 <= j < id.len() ==> id[j]
            != '&',
{
    reveal_strlit("?v=");
    text::lemma_find_from(url, "?v="@, 0);
    text::lemma_find_from(url, seq!['&'], 0);
    let f = text::find(url, "?v="@)->0;
    assert(f == v);
    let a = text::find(url, seq!['&'])->0;
    assert(url.subrange(a, a + 1)[0] == url[a]);
    let id = url.subrange(v + 3, a);
    assert forall|j: int| 0 <= j < id.len() implies id[j] != '&' by {
        let k = v + 3 + j;
        if url[k] == '&' {
            assert(url.subrange(k, k + 1) =~= seq!['&']);
            assert(text::occurs_at(url, seq!['&'], k));
        }
    }
}

/// The other link forms: with `?v=` and no `&` the id is everything after
/// the first `?v=`; a `/watch/` or `https://youtu.be` link without `?v=`
/// gives what follows its last `/`, which holds no `/`; a link of none of
/// these forms gives no id.
pub proof fn lemma_video_id_forms(url: Seq<char>, v: int)
    requires
        text::contains(url, "?v="@) ==> text::occurs_at(url, "?v="@, v) && forall|k: int|
            0 <= k < v ==> !text::occurs_at(url, "?v="@, k),
    ensures
        text::contains(url, "?v="@) && !text::contains(url, seq!['&']) ==> video_id(url) == Some(
            url.skip(v + 3),
        ),
        !text::contains(url, "?v="@) && (text::contains(url, "/watch/"@) || text::contains(
            url,
            "https://youtu.be"@,
        )) ==> (video_id(url) matches Some(id) && id.len() < url.len() && url[url.len() - id.len()
            - 1] == '/' && url.skip(url.len() - id.len()) == id && forall|j: int|
            0 <= j < id.len() ==> id[j] != '/'),
        !text::contains(url, "?v="@) && !text::contains(url, "/watch/"@) && !text::contains(
            url,
            "https://youtu.be"@,
        ) ==> video_id(url) is None,
{
    reveal_strlit("?v=");
    reveal_strlit("/watch/");
    reveal_strlit("https://youtu.be");
    text::lemma_find_from(url, "?v="@, 0);
    if text::contains(url, "?v="@) {
        assert(url.subrange(v + 3, url.len() as int) =~= url.skip(v + 3));
    }
    if !text::contains(url, "?v="@) && (text::contains(url, "/watch/"@) || text::contains(
        url,
        "https://youtu.be"@,
    )) {
        text::lemma_rfind_char_before(url, '/', url.len() as int);
        if text::contains(url, "/watch/"@) {
            text::lemma_find_from(url, "/watch/"@, 0);
            let i = text::find(url, "/watch/"@)->0;
            assert(url.subrange(i, i + 7)[0] == '/');
        } else {
            text::lemma_find_from(url, "https://youtu.be"@, 0);
            let i = text::find(url, "https://youtu.be"@)->0;
            assert(url.subrange(i, i + 16)[6] == '/');
        }
        let k = text::rfind_char(url, '/')->0;
        let id = url.subrange(k + 1, url.len() as int);
        assert(url.skip(url.len() - id.len()) =~= id);
    }
}

/// The video id of a YouTube link (see `video_id`); a link of none of the
/// forms is refused.
pub fn video_id_from_url(url: &str) -> (r: Result<&str, SongRequestsError>)
    requires
        video_url_sliceable(url@),
    ensures
        match r {
            Ok(id) => video_id(url@) == Some(id@),
            Err(e) => video_id(url@) is None && e is InvalidYoutubeUrl,
        },
{
    let chars = chars_of(url);
    let v_marker = chars_of("?v=");
    let amp: [char; 1] = ['&'];
    let amp_chars: &[char] = &amp;
    assert(amp_chars@ =~= seq!['&']);
    let v_at = find_from_exec(&chars, &v_marker, 0);
    let amp_at = find_char_exec(&chars, '&');
    proof {
        reveal_strlit("?v=");
        text::lemma_find_from(chars@, "?v="@, 0);
        text::lemma_find_from(chars@, seq!['&'], 0);
    }
    match (v_at, amp_at) {
        (Some(v), Some(a)) => {
            assert(text::occurs_at(chars@, "?v="@, v as int));
            assert(text::occurs_at(chars@, seq!['&'], a as int));
            return Ok(url.substring_char(v + 3, a));
        },
        (Some(v), None) => {
            assert(text::occurs_at(chars@, "?v="@, v as int));
            assert("?v="@.len() == 3);
            assert(v + 3 <= chars.len());
            return Ok(url.substring_char(v + 3, chars.len()));
        },
        _ => {},
    }
    let watch = chars_of("/watch/");
    let short = chars_of("https://youtu.be");
    let is_watch = find_from_exec(&chars, &watch, 0).is_some();
    let is_short = find_from_exec(&chars, &short, 0).is_some();
    if is_watch || is_short {
        let slash = match rfind_char_exec(&chars, '/') {
            Some(i) => i,
            None => {
                proof {
                    text::lemma_rfind_char_before(chars@, '/', chars@.len() as int);
                    if is_watch {
                        text::lemma_find_from(chars@, "/watch/"@, 0);
                        let i = text::find(chars@, "/watch/"@)->0;
                        assert(text::occurs_at(chars@, "/watch/"@, i));
                        reveal_strlit("/watch/");
                        assert(chars@.subrange(i, i + 7)[0] == '/');
                        assert(chars@[i] == '/');
                    } else {
                        text::lemma_find_from(chars@, "https://youtu.be"@, 0);
                        let i = text::find(chars@, "https://youtu.be"@)->0;
                        assert(text::occurs_at(chars@, "https://youtu.be"@, i));
                        reveal_strlit("https://youtu.be");
                        assert(chars@.subrange(i, i + 16)[6] == '/');
                        assert(chars@[i + 6] == '/');
                    }
                }
                assert(false);
                0
            },
        };
        proof {
            text::lemma_rfind_char_before(chars@, '/', chars@.len() as int);
        }
        assert(slash < chars.len());
        return Ok(url.substring_char(slash + 1, chars.len()));
    }
    Err(SongRequestsError::InvalidYoutubeUrl)
}

/// The bytes that a search query keeps as they are: ASCII bytes other than
/// the control bytes, space, `"`, `<`, `>` and `` ` ``.
pub open spec fn query_byte_kept(b: u8) -> bool {
    32 < b < 127 && b != 34 && b != 60 && b != 62 && b != 96
}

/// The percent-encoding of a search query's UTF-8 bytes, as
/// `percent_encoding::utf8_percent_encode` writes it for the set of
/// bytes that `query_byte_kept` leaves out: every other byte becomes `%`
/// and two uppercase hexadecimal digits.
pub open spec fn query_encoded(bytes: Seq<u8>) -> Seq<char>
    decreases bytes.len(),
{
    if bytes.len() == 0 {
        Seq::empty()
    } else {
        let b = bytes[0];
        let head = if query_byte_kept(b) {
            seq![b as char]
        } else {
            seq!['%', crate::commands::hex_upper(b / 16), crate::commands::hex_upper(b % 16)]
        };
        head + query_encoded(bytes.drop_first())
    }
}

/// An uppercase hexadecimal digit.
fn hex_digit(d: u8) -> (c: char)
    requires
        d < 16,
    ensures
        c == crate::commands::hex_upper(d),
{
    if d < 10 {
        (d + 48) as char
    } else {
        (d + 55) as char
    }
}

/// The search query `q`, percent-encoded (see `query_encoded`).
pub fn encode_query(q: &str) -> (r: String)
    ensures
        r@ == query_encoded(vstd::utf8::encode_utf8(q@)),
{
    let bytes = q.as_bytes();
    let ghost all = bytes@;
    let n = bytes.len();
    let mut r = String::new();
    let mut i: usize = 0;
    assert(all.skip(0) =~= all);
    assert(r@ + query_encoded(all.skip(0)) =~= query_encoded(all));
    while i < n
        invariant
            n == all.len(),
            all == bytes@,
            all == vstd::utf8::encode_utf8(q@),
            i <= n,
            r@ + query_encoded(all.skip(i as int)) == query_encoded(all),
        decreases n - i,
    {
        let b = bytes[i];
        let ghost rest = all.skip(i as int);
        let ghost before = r@;
        assert(rest[0] == b);
        assert(rest.drop_first() =~= all.skip(i + 1));
        if 32 < b && b < 127 && b != 34 && b != 60 && b != 62 && b != 96 {
            r.push(b as char);
            assert(r@ =~= before + seq![b as char]);
        } else {
            r.push('%');
            r.push(hex_digit(b / 16));
            r.push(hex_digit(b % 16));
            assert(r@ =~= before + seq![
                '%',
                crate::commands::hex_upper(b / 16),
                crate::commands::hex_upper(b % 16),
            ]);
        }
        i = i + 1;
    }
    assert(all.skip(n as int) =~= Seq::<u8>::empty());
    r
}

/// The address of the YouTube search for `query` (already encoded) with
/// the API key `key`: one video, the best match.
pub fn search_url(query: &str, key: &str) -> (r: String)
    ensures
        r@ == "https://youtube.googleapis.com/youtube/v3/search?part=snippet&maxResults=1&q="@
            + query@ + "&type=video&key="@ + key@,
{
    let mut r = String::from_str(
        "https://youtube.googleapis.com/youtube/v3/search?part=snippet&maxResults=1&q=",
    );
    r.append(query);
    r.append("&type=video&key=");
    r.append(key);
    r
}

/// The JSON text of the first found video of a YouTube search answer
/// (`items[0]`).
pub open spec fn first_item(raw: Seq<char>) -> Option<Seq<char>> {
    json_at_index(json_in(Some(raw), "items"@), 0)
}

/// The title of the first found video (`items[0].snippet.title`).
pub open spec fn search_title(raw: Seq<char>) -> Option<Seq<char>> {
    json_str(json_in(json_in(first_item(raw), "snippet"@), "title"@))
}

/// The id of the first found video (`items[0].id.videoId`).
pub open spec fn search_video_id(raw: Seq<char>) -> Option<Seq<char>> {
    json_str(json_in(json_in(first_item(raw), "id"@), "videoId"@))
}

/// The title of the first video of the YouTube search answer `raw` (see
/// `search_title`).
pub fn search_result_title(raw: &str) -> (r: Option<String>)
    ensures
        opt_text(r) == search_title(raw@),
{
    let item = element_in(&field_in(&Some(String::from_str(raw)), "items"), 0);
    str_of(&field_in(&field_in(&item, "snippet"), "title"))
}

/// The first video of the YouTube search answer `raw`, when both its title
/// and its id are there (see `search_title`, `search_video_id`).
pub fn search_result_video(raw: &str) -> (r: Option<VideoInfo>)
    ensures
        match r {
            Some(v) => search_title(raw@) == Some(v.title@) && search_video_id(raw@) == Some(v.id@),
            None => search_title(raw@) is None || search_video_id(raw@) is None,
        },
{
    let item = element_in(&field_in(&Some(String::from_str(raw)), "items"), 0);
    let title = str_of(&field_in(&field_in(&item, "snippet"), "title"));
    let id = str_of(&field_in(&field_in(&item, "id"), "videoId"));
    match (title, id) {
        (Some(title), Some(id)) => Some(VideoInfo { id, title }),
        _ => None,
    }
}

} // verus!
