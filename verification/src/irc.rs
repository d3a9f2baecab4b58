//! Twitch IRC messages: the tag section of a `PRIVMSG`, decoding of escaped
//! tag values, and the reply format for the channel.

use vstd::prelude::*;

use crate::dict::StrMap;
use crate::text;
use crate::text::{
    chars_of, contains_exec, find_char_exec, split_whitespace, starts_with_exec, str_eq, string_of,
    trim_bounds,
};

verus! {

/// The tags of a Twitch IRC message, keyed by tag name.
#[derive(Debug)]
pub struct Tags(StrMap);

impl View for Tags {
    type V = Map<Seq<char>, Seq<char>>;

    closed spec fn view(&self) -> Map<Seq<char>, Seq<char>> {
        self.0@
    }
}

/// The message that `mods_only` answers with.
pub open spec fn mods_only_reply() -> Seq<char> {
    "This command can only be used by mods"@
}

impl Tags {
    /// No tags.
    pub fn new() -> (t: Tags)
        ensures
            t@ == Map::<Seq<char>, Seq<char>>::empty(),
    {
        Tags(StrMap::new())
    }

    /// Sets the tag `key` to `value`, replacing any earlier value.
    pub fn insert(&mut self, key: String, value: String)
        ensures
            final(self)@ == old(self)@.insert(key@, value@),
    {
        self.0.insert(key, value);
    }

    /// The same tags.
    pub fn duplicate(&self) -> (r: Tags)
        ensures
            r@ == self@,
    {
        Tags(self.0.duplicate())
    }

    /// The value of the tag `key`.
    pub fn get(&self, key: &str) -> (r: Option<&String>)
        ensures
            match r {
                Some(v) => self@.dom().contains(key@) && v@ == self@[key@],
                None => !self@.dom().contains(key@),
            },
    {
        self.0.get(key)
    }

    /// Whether the sender is a moderator, when the `mod` tag is present.
    pub fn is_mod(&self) -> (r: Option<bool>)
        ensures
            r == (if self@.dom().contains("mod"@) {
                Some(self@["mod"@] == "1"@)
            } else {
                None
            }),
    {
        match self.get("mod") {
            Some(v) => Some(str_eq(v.as_str(), "1")),
            None => None,
        }
    }

    /// Whether the sender is the broadcaster, when the `badges` tag is present.
    pub fn is_broadcaster(&self) -> (r: Option<bool>)
        ensures
            r == (if self@.dom().contains("badges"@) {
                Some(text::contains(self@["badges"@], "broadcaster"@))
            } else {
                None
            }),
    {
        match self.get("badges") {
            Some(b) => {
                let chars = chars_of(b.as_str());
                let pat = chars_of("broadcaster");
                Some(contains_exec(&chars, &pat))
            },
            None => None,
        }
    }

    /// The refusal for a command that only moderators and the broadcaster
    /// may use: present exactly when both tags are present, the sender is
    /// not a moderator and not the broadcaster.
    pub fn mods_only(&self) -> (r: Option<String>)
        ensures
            match r {
                Some(m) => m@ == mods_only_reply() && self.is_mod_tag() == Some(false)
                    && self.is_broadcaster_tag() == Some(false),
                None => !(self.is_mod_tag() == Some(false) && self.is_broadcaster_tag() == Some(
                    false,
                )),
            },
    {
        let is_mod = match self.is_mod() {
            Some(b) => b,
            None => return None,
        };
        if is_mod {
            return None;
        }
        let is_broadcaster = match self.is_broadcaster() {
            Some(b) => b,
            None => return None,
        };
        if is_broadcaster {
            None
        } else {
            Some(String::from_str("This command can only be used by mods"))
        }
    }

    /// What `is_mod` returns.
    pub open spec fn is_mod_tag(&self) -> Option<bool> {
        if self@.dom().contains("mod"@) {
            Some(self@["mod"@] == "1"@)
        } else {
            None
        }
    }

    /// What `is_broadcaster` returns.
    pub open spec fn is_broadcaster_tag(&self) -> Option<bool> {
        if self@.dom().contains("badges"@) {
            Some(text::contains(self@["badges"@], "broadcaster"@))
        } else {
            None
        }
    }

    /// The decoded body of the message being replied to, if any.
    pub fn get_reply(&self) -> (r: Option<String>)
        ensures
            match r {
                Some(m) => self@.dom().contains("reply-parent-msg-body"@) && m@ == decoded_tag_value(
                    self@["reply-parent-msg-body"@],
                ),
                None => !self@.dom().contains("reply-parent-msg-body"@),
            },
    {
        match self.get("reply-parent-msg-body") {
            Some(m) => Some(Tags::decode_message(m.as_str())),
            None => None,
        }
    }

    /// Undoes the escaping of an IRC tag value: `\:` is `;`, `\s` a space,
    /// `\\` a backslash, `\r` and `\n` CR and LF; any other escaped
    /// character stands for itself and a trailing `\` is dropped.
    pub fn decode_message(msg: &str) -> (r: String)
        ensures
            r@ == decoded_tag_value(msg@),
    {
        let chars = chars_of(msg);
        let n = chars.len();
        let mut output = String::new();
        let mut i: usize = 0;
        assert(chars@.subrange(0, n as int) =~= chars@);
        assert(output@ + msg@ =~= msg@);
        while i < n
            invariant
                n == chars@.len(),
                chars@ == msg@,
                i <= n,
                output@ + decoded_tag_value(chars@.subrange(i as int, n as int)) == decoded_tag_value(
                    msg@,
                ),
            decreases n - i,
        {
            let ghost rest = chars@.subrange(i as int, n as int);
            let ghost prev = output@;
            let c = chars[i];
            if c == '\\' {
                if i + 1 < n {
                    let next = chars[i + 1];
                    output.push(unescaped(next));
                    proof {
                        assert(rest.subrange(2, rest.len() as int) =~= chars@.subrange(
                            i + 2,
                            n as int,
                        ));
                        assert(output@ + decoded_tag_value(chars@.subrange(i + 2, n as int))
                            =~= prev + decoded_tag_value(rest));
                    }
                    i = i + 2;
                } else {
                    assert(chars@.subrange(i + 1, n as int) =~= Seq::<char>::empty());
                    i = i + 1;
                }
            } else {
                output.push(c);
                proof {
                    assert(rest.drop_first() =~= chars@.subrange(i + 1, n as int));
                    assert(output@ + decoded_tag_value(chars@.subrange(i + 1, n as int))
                        =~= prev + decoded_tag_value(rest));
                }
                i = i + 1;
            }
        }
        assert(chars@.subrange(n as int, n as int) =~= Seq::<char>::empty());
        assert(output@ + Seq::<char>::empty() =~= output@);
        output
    }

    /// The display name of the sender.
    pub fn get_sender(&self) -> (r: Option<String>)
        ensures
            match r {
                Some(s) => self@.dom().contains("display-name"@) && s@ == self@["display-name"@],
                None => !self@.dom().contains("display-name"@),
            },
    {
        match self.get("display-name") {
            Some(s) => Some(s.clone()),
            None => None,
        }
    }
}

/// The character that an escaped `c` stands for in a tag value.
pub open spec fn unescaped_spec(c: char) -> char {
    if c == ':' {
        ';'
    } else if c == 's' {
        ' '
    } else if c == 'r' {
        '\r'
    } else if c == 'n' {
        '\n'
    } else {
        c
    }
}

/// The character that an escaped `c` stands for in a tag value.
pub fn unescaped(c: char) -> (r: char)
    ensures
        r == unescaped_spec(c),
{
    if c == ':' {
        ';'
    } else if c == 's' {
        ' '
    } else if c == 'r' {
        '\r'
    } else if c == 'n' {
        '\n'
    } else {
        c
    }
}

/// The value that an escaped tag value stands for.
pub open spec fn decoded_tag_value(s: Seq<char>) -> Seq<char>
    decreases s.len(),
{
    if s.len() == 0 {
        Seq::empty()
    } else if s[0] == '\\' {
        if s.len() == 1 {
            Seq::empty()
        } else {
            seq![unescaped_spec(s[1])] + decoded_tag_value(s.subrange(2, s.len() as int))
        }
    } else {
        seq![s[0]] + decoded_tag_value(s.drop_first())
    }
}

/// The prefix of every chat line that the bot sends to the channel.
pub open spec fn privmsg_prefix() -> Seq<char> {
    "PRIVMSG #sadmadladsalman :"@
}

/// The IRC line that says `msg` in the channel.
pub fn to_irc_message(msg: &str) -> (r: String)
    ensures
        r@ == privmsg_prefix() + msg@,
{
    let mut r = String::from_str("PRIVMSG #sadmadladsalman :");
    r.append(msg);
    r
}

/// The key and value of one `key=value` piece of the tag section; a value
/// that mentions `PRIVMSG` is taken as empty.
pub open spec fn tag_entry(piece: Seq<char>) -> (Seq<char>, Seq<char>) {
    let (key, value) = text::split_once(piece, '=')->0;
    (key, if text::contains(value, "PRIVMSG"@) { Seq::empty() } else { value })
}

/// The map built by inserting `pairs` in order: a later pair of a key wins.
pub open spec fn pairs_to_map(pairs: Seq<(Seq<char>, Seq<char>)>) -> Map<Seq<char>, Seq<char>>
    decreases pairs.len(),
{
    if pairs.len() == 0 {
        Map::empty()
    } else {
        pairs_to_map(pairs.drop_last()).insert(pairs.last().0, pairs.last().1)
    }
}

/// The tag section of an IRC line (before the first space, without its `@`)
/// and the rest of the line (after that space).
pub open spec fn irc_sections(line: Seq<char>) -> (Seq<char>, Seq<char>) {
    let (tags, rest) = text::split_once(line, ' ')->0;
    (tags.drop_first(), rest)
}

/// An IRC line that `parse_irc` accepts: it has a tag section and a body
/// with a `:` after its first character, both sections start with a
/// one-byte character, and every tag is of the form `key=value`.
pub open spec fn parsable_irc(line: Seq<char>) -> bool {
    match text::split_once(line, ' ') {
        Some((tags, rest)) => {
            &&& tags.len() > 0
            &&& (tags[0] as u32) < 128
            &&& rest.len() > 0
            &&& (rest[0] as u32) < 128
            &&& text::contains(rest.drop_first(), seq![':'])
            &&& forall|j: int|
                0 <= j < text::split_all(tags.drop_first(), ';').len() ==> text::contains(
                    #[trigger] text::split_all(tags.drop_first(), ';')[j],
                    seq!['='],
                )
        },
        None => false,
    }
}

/// The tags of a parsable IRC line.
pub open spec fn irc_tags(line: Seq<char>) -> Map<Seq<char>, Seq<char>> {
    pairs_to_map(text::split_all(irc_sections(line).0, ';').map_values(|p: Seq<char>| tag_entry(p)))
}

/// The chat text of a parsable IRC line: what follows the first `:` after
/// the body's first character, trimmed.
pub open spec fn irc_text(line: Seq<char>) -> Seq<char> {
    let (_, after) = text::split_once(irc_sections(line).1.drop_first(), ':')->0;
    text::trim(after)
}

/// The chat text of a tagged line is what its sender wrote: for a line
/// `@tags :prefix :t` whose tags hold no space and whose prefix holds no
/// `:`, the text is `t` (already trimmed), whatever `:` characters `t`
/// itself contains.
pub proof fn lemma_irc_text_is_the_message(tags: Seq<char>, prefix: Seq<char>, t: Seq<char>)
    requires
        forall|j: int| 0 <= j < tags.len() ==> tags[j] != ' ',
        forall|j: int| 0 <= j < prefix.len() ==> prefix[j] != ':',
        text::trim(t) == t,
    ensures
        irc_text(seq!['@'] + tags + " :"@ + prefix + " :"@ + t) == t,
{
    reveal_strlit(" :");
    let line = seq!['@'] + tags + " :"@ + prefix + " :"@ + t;
    let sp: int = tags.len() as int + 1;
    assert(line[sp] == ' ');
    assert forall|j: int| 0 <= j < sp implies line[j] != ' ' by {
        if j > 0 {
            assert(line[j] == tags[j - 1]);
        }
    }
    text::lemma_split_once_at(line, ' ', sp);
    let rest = line.subrange(sp + 1, line.len() as int);
    let r = prefix + " :"@ + t;
    assert(rest.drop_first() =~= r);
    let c: int = prefix.len() as int + 1;
    assert(r[c] == ':');
    assert forall|j: int| 0 <= j < c implies r[j] != ':' by {
        if j < prefix.len() {
            assert(r[j] == prefix[j]);
        }
    }
    text::lemma_split_once_at(r, ':', c);
    assert(r.subrange(c + 1, r.len() as int) =~= t);
    assert(irc_sections(line).1 == rest);
}

/// A chat message with its tags.
#[derive(Debug)]
pub struct TwitchIrcMessage {
    pub tags: Tags,
    pub message: String,
}

/// Splits a tagged `PRIVMSG` line into its tags and its trimmed chat text.
pub fn parse_irc(msg: &str) -> (m: TwitchIrcMessage)
    requires
        parsable_irc(msg@),
    ensures
        m.tags@ == irc_tags(msg@),
        m.message@ == irc_text(msg@),
{
    let chars = chars_of(msg);
    let sp = match find_char_exec(&chars, ' ') {
        Some(i) => i,
        None => {
            assert(false);
            0
        },
    };
    proof {
        text::lemma_find_from(chars@, seq![' '], 0);
        assert(text::occurs_at(chars@, seq![' '], sp as int));
        assert(chars@ == msg@);
        let (_, after_space) = text::split_once(msg@, ' ')->0;
        assert(after_space.len() > 0);
    }
    assert(sp + 1 < chars.len());
    let tags_part: &[char] = &chars[1usize..sp];
    let rest: &[char] = &chars[(sp + 2)..chars.len()];
    proof {
        let (t, r) = text::split_once(msg@, ' ')->0;
        assert(tags_part@ =~= t.drop_first());
        assert(rest@ =~= r.drop_first());
    }
    let colon = match find_char_exec(rest, ':') {
        Some(i) => i,
        None => {
            assert(false);
            0
        },
    };
    proof {
        text::lemma_find_from(rest@, seq![':'], 0);
    }
    let (start, end) = trim_bounds(rest, colon + 1, rest.len());
    let message = string_of(rest, start, end);
    let tags = parse_tags(tags_part);
    TwitchIrcMessage { tags, message }
}

/// The tags of a tag section whose pieces are all `key=value`.
fn parse_tags(section: &[char]) -> (tags: Tags)
    requires
        forall|j: int|
            0 <= j < text::split_all(section@, ';').len() ==> text::contains(
                #[trigger] text::split_all(section@, ';')[j],
                seq!['='],
            ),
    ensures
        tags@ == pairs_to_map(text::split_all(section@, ';').map_values(|p: Seq<char>| tag_entry(p))),
{
    let ghost pieces = text::split_all(section@, ';');
    let ghost mut done: Seq<Seq<char>> = Seq::empty();
    let mut tags = Tags::new();
    let mut rem: &[char] = section;
    loop
        invariant
            pieces == text::split_all(section@, ';'),
            pieces == done + text::split_all(rem@, ';'),
            forall|j: int| 0 <= j < pieces.len() ==> text::contains(#[trigger] pieces[j], seq!['=']),
            tags@ == pairs_to_map(done.map_values(|p: Seq<char>| tag_entry(p))),
        decreases rem@.len(),
    {
        let found = find_char_exec(rem, ';');
        proof {
            text::lemma_find_from(rem@, seq![';'], 0);
        }
        let piece: &[char] = match found {
            Some(i) => &rem[0usize..i],
            None => rem,
        };
        proof {
            assert(text::split_all(rem@, ';')[0] == piece@);
            assert(pieces[done.len() as int] == piece@);
        }
        let (key, value) = split_tag(piece);
        tags.insert(key, value);
        proof {
            let d2 = done.push(piece@);
            assert(d2.map_values(|p: Seq<char>| tag_entry(p)) =~= done.map_values(
                |p: Seq<char>| tag_entry(p),
            ).push(tag_entry(piece@)));
            assert(d2.map_values(|p: Seq<char>| tag_entry(p)).drop_last() =~= done.map_values(
                |p: Seq<char>| tag_entry(p),
            ));
            done = d2;
        }
        match found {
            Some(i) => {
                assert(text::occurs_at(rem@, seq![';'], i as int));
                assert(i < rem.len());
                rem = &rem[(i + 1)..rem.len()];
            },
            None => {
                assert(pieces =~= done);
                return tags;
            },
        }
    }
}

/// The key and value of one `key=value` tag.
fn split_tag(piece: &[char]) -> (r: (String, String))
    requires
        text::contains(piece@, seq!['=']),
    ensures
        (r.0@, r.1@) == tag_entry(piece@),
{
    let eq = match find_char_exec(piece, '=') {
        Some(i) => i,
        None => {
            assert(false);
            0
        },
    };
    proof {
        text::lemma_find_from(piece@, seq!['='], 0);
        assert(text::occurs_at(piece@, seq!['='], eq as int));
    }
    assert(eq < piece.len());
    let key = string_of(piece, 0, eq);
    let value_chars: &[char] = &piece[(eq + 1)..piece.len()];
    let marker = chars_of("PRIVMSG");
    if contains_exec(value_chars, &marker) {
        (key, String::new())
    } else {
        (key, string_of(piece, eq + 1, piece.len()))
    }
}

/// A tagged `PRIVMSG` line that the chat loop can handle: `parse_irc`
/// accepts it, and a reply starts with a mention followed by a space.
pub open spec fn acceptable_privmsg(line: Seq<char>) -> bool {
    &&& parsable_irc(line)
    &&& irc_tags(line).dom().contains("reply-parent-msg-body"@) ==> text::contains(
        irc_text(line),
        seq![' '],
    )
}

/// The chat text that may hold a command: a reply loses its leading mention.
pub open spec fn chat_body(tags: Map<Seq<char>, Seq<char>>, message: Seq<char>) -> Seq<char> {
    if tags.dom().contains("reply-parent-msg-body"@) {
        let (_, after) = text::split_once(message, ' ')->0;
        after
    } else {
        message
    }
}

/// The first word of a chat text (all of it when it has no space).
pub open spec fn command_word(body: Seq<char>) -> Seq<char> {
    match text::split_once(body, ' ') {
        Some((word, _)) => word,
        None => body,
    }
}

/// What follows the first space of a chat text (nothing when it has none).
pub open spec fn command_args(body: Seq<char>) -> Seq<char> {
    match text::split_once(body, ' ') {
        Some((_, rest)) => rest,
        None => Seq::empty(),
    }
}

/// A chat text is split at its first space: the command word is what
/// precedes it and the arguments are everything after it, spaces included;
/// a text without a space is all command word and no arguments.
pub proof fn lemma_command_split(word: Seq<char>, args: Seq<char>)
    requires
        forall|j: int| 0 <= j < word.len() ==> word[j] != ' ',
    ensures
        command_word(word + seq![' '] + args) == word,
        command_args(word + seq![' '] + args) == args,
        command_word(word) == word,
        command_args(word) == Seq::<char>::empty(),
{
    let body = word + seq![' '] + args;
    text::lemma_split_once_at(body, ' ', word.len() as int);
    assert(body.subrange(0, word.len() as int) =~= word);
    assert(body.subrange(word.len() as int + 1, body.len() as int) =~= args);
    text::lemma_find_from(word, seq![' '], 0);
    if text::find(word, seq![' ']) is Some {
        let k = text::find(word, seq![' '])->0;
        assert(word.subrange(k, k + 1)[0] == word[k]);
    }
}

/// A frame that arrives on the chat websocket.
#[derive(Debug)]
pub enum IrcFrame {
    /// A websocket ping.
    Ping,
    /// A text frame.
    Text(String),
    /// The server closed the connection.
    Close,
    /// Any other frame.
    Other,
    /// The connection failed.
    Error,
}

/// What the chat loop does with a frame.
#[derive(Debug)]
pub enum IrcAction {
    /// Answer a websocket ping with an empty pong.
    Pong,
    /// Send this text frame.
    Send(String),
    /// Connect again and log in again.
    Restart,
    /// Nothing to do.
    Skip,
    /// Run the chat command `command` (its name without the delimiter,
    /// lowercased) with `context`.
    Run { command: String, context: crate::commands::Context },
}

/// The action for a command word that has been lowercased: the command's
/// name is the lowercased word without its first character. `None` when
/// the lowercased word does not start with a one-byte character (there is
/// no name to take then).
pub fn command_action(lowered: &str, args: &str, message: TwitchIrcMessage) -> (r: Option<IrcAction>)
    ensures
        command_action_post(lowered@, args@, message.tags@, message.message@, r),
{
    let chars = chars_of(lowered);
    if chars.len() == 0 || (chars[0] as u32) >= 128 {
        return None;
    }
    let name = string_of(&chars, 1, chars.len());
    assert(chars@.subrange(1, chars@.len() as int) =~= lowered@.drop_first());
    if str_eq(name.as_str(), "reconnect") {
        return Some(IrcAction::Restart);
    }
    let arg_chars = chars_of(args);
    let words = split_whitespace(&arg_chars);
    Some(
        IrcAction::Run {
            command: name,
            context: crate::commands::Context { args: words, message_metadata: message },
        },
    )
}

/// The contract of `command_action`.
pub open spec fn command_action_post(
    lowered: Seq<char>,
    args: Seq<char>,
    tags: Map<Seq<char>, Seq<char>>,
    message: Seq<char>,
    r: Option<IrcAction>,
) -> bool {
    if lowered.len() == 0 || (lowered[0] as u32) >= 128 {
        r is None
    } else if lowered.drop_first() == "reconnect"@ {
        r matches Some(IrcAction::Restart)
    } else {
        match r {
            Some(IrcAction::Run { command, context }) => {
                &&& command@ == lowered.drop_first()
                &&& crate::commands::args_view(context.args@) == text::words(args)
                &&& context.message_metadata.tags@ == tags
                &&& context.message_metadata.message@ == message
            },
            _ => false,
        }
    }
}

/// Handles one frame of the chat connection: pings are answered, a chat
/// message that starts with `delim` becomes a command to run (or a
/// reconnect), server pings are answered with `PONG`, a server `RECONNECT`,
/// a close, an odd frame or an error makes the loop connect again.
/// `None` when the lowercased command word has no first one-byte character.
pub fn irc_step(frame: IrcFrame, delim: char) -> (r: Option<IrcAction>)
    requires
        frame matches IrcFrame::Text(t) ==> (text::contains(t@, "PRIVMSG"@) ==> acceptable_privmsg(
            t@,
        )),
    ensures
        irc_step_post(frame, delim, r),
{
    match frame {
        IrcFrame::Ping => Some(IrcAction::Pong),
        IrcFrame::Text(t) => {
            let line = chars_of(t.as_str());
            let privmsg = chars_of("PRIVMSG");
            if contains_exec(&line, &privmsg) {
                let parsed = parse_irc(t.as_str());
                let text_chars = chars_of(parsed.message.as_str());
                let body: &[char] = match parsed.tags.get("reply-parent-msg-body") {
                    Some(_) => {
                        let sp = match find_char_exec(&text_chars, ' ') {
                            Some(i) => i,
                            None => {
                                assert(false);
                                0
                            },
                        };
                        proof {
                            text::lemma_find_from(text_chars@, seq![' '], 0);
                            assert(text::occurs_at(text_chars@, seq![' '], sp as int));
                        }
                        assert(sp < text_chars.len());
                        &text_chars[(sp + 1)..text_chars.len()]
                    },
                    None => &text_chars,
                };
                assert(body@ == chat_body(parsed.tags@, parsed.message@));
                let delim_slice: [char; 1] = [delim];
                let delim_chars: &[char] = &delim_slice;
                assert(delim_chars@ =~= seq![delim]);
                if !starts_with_exec(body, delim_chars) {
                    return Some(IrcAction::Skip);
                }
                let (word, args) = match find_char_exec(body, ' ') {
                    Some(i) => {
                        proof {
                            text::lemma_find_from(body@, seq![' '], 0);
                            assert(text::occurs_at(body@, seq![' '], i as int));
                        }
                        assert(i < body.len());
                        (string_of(body, 0, i), string_of(body, i + 1, body.len()))
                    },
                    None => {
                        assert(body@.subrange(0, body@.len() as int) =~= body@);
                        (string_of(body, 0, body.len()), String::new())
                    },
                };
                let lowered = word.as_str().to_lowercase();
                command_action(lowered.as_str(), args.as_str(), parsed)
            } else {
                let ping = chars_of("PING :tmi.twitch.tv");
                let reconnect = chars_of(":tmi.twitch.tv RECONNECT");
                if starts_with_exec(&line, &ping) {
                    Some(IrcAction::Send(String::from_str("PONG :tmi.twitch.tv\r\n")))
                } else if contains_exec(&line, &reconnect) {
                    Some(IrcAction::Restart)
                } else {
                    Some(IrcAction::Skip)
                }
            }
        },
        IrcFrame::Close => Some(IrcAction::Restart),
        IrcFrame::Other => Some(IrcAction::Restart),
        IrcFrame::Error => Some(IrcAction::Restart),
    }
}

/// The contract of `irc_step`.
pub open spec fn irc_step_post(frame: IrcFrame, delim: char, r: Option<IrcAction>) -> bool {
    match frame {
        IrcFrame::Ping => r matches Some(IrcAction::Pong),
        IrcFrame::Text(t) => {
            if text::contains(t@, "PRIVMSG"@) {
                let body = chat_body(irc_tags(t@), irc_text(t@));
                if !text::starts_with(body, seq![delim]) {
                    r matches Some(IrcAction::Skip)
                } else {
                    command_action_post(
                        text::lowercase(command_word(body)),
                        command_args(body),
                        irc_tags(t@),
                        irc_text(t@),
                        r,
                    )
                }
            } else if text::starts_with(t@, "PING :tmi.twitch.tv"@) {
                r matches Some(IrcAction::Send(s)) && s@ == "PONG :tmi.twitch.tv\r\n"@
            } else if text::contains(t@, ":tmi.twitch.tv RECONNECT"@) {
                r matches Some(IrcAction::Restart)
            } else {
                r matches Some(IrcAction::Skip)
            }
        },
        _ => r matches Some(IrcAction::Restart),
    }
}

/// Whether every `;`-separated piece of `section` holds a `=`.
fn all_pieces_have_eq(section: &[char]) -> (b: bool)
    ensures
        b == forall|j: int|
            0 <= j < text::split_all(section@, ';').len() ==> text::contains(
                #[trigger] text::split_all(section@, ';')[j],
                seq!['='],
            ),
{
    let ghost pieces = text::split_all(section@, ';');
    let ghost mut done: Seq<Seq<char>> = Seq::empty();
    let mut rem: &[char] = section;
    let eq: [char; 1] = ['='];
    let eq_chars: &[char] = &eq;
    assert(eq_chars@ =~= seq!['=']);
    loop
        invariant
            pieces == text::split_all(section@, ';'),
            pieces == done + text::split_all(rem@, ';'),
            eq_chars@ == seq!['='],
            forall|j: int| 0 <= j < done.len() ==> text::contains(#[trigger] pieces[j], seq!['=']),
        decreases rem@.len(),
    {
        let found = find_char_exec(rem, ';');
        proof {
            text::lemma_find_from(rem@, seq![';'], 0);
        }
        let piece: &[char] = match found {
            Some(i) => &rem[0usize..i],
            None => rem,
        };
        proof {
            assert(text::split_all(rem@, ';')[0] == piece@);
            assert(pieces[done.len() as int] == piece@);
        }
        if !contains_exec(piece, eq_chars) {
            return false;
        }
        proof {
            done = done.push(piece@);
        }
        match found {
            Some(i) => {
                assert(text::occurs_at(rem@, seq![';'], i as int));
                assert(i < rem.len());
                rem = &rem[(i + 1)..rem.len()];
            },
            None => {
                assert(pieces =~= done);
                return true;
            },
        }
    }
}

/// Whether `parse_irc` accepts the line.
pub fn is_parsable_irc(line: &str) -> (b: bool)
    ensures
        b == parsable_irc(line@),
{
    let chars = chars_of(line);
    let sp = match find_char_exec(&chars, ' ') {
        Some(i) => i,
        None => return false,
    };
    proof {
        text::lemma_find_from(chars@, seq![' '], 0);
        assert(text::occurs_at(chars@, seq![' '], sp as int));
    }
    assert(sp < chars.len());
    if sp == 0 || (chars[0] as u32) >= 128 || sp + 1 == chars.len() || (chars[sp + 1] as u32)
        >= 128 {
        return false;
    }
    let tags_part: &[char] = &chars[1usize..sp];
    let rest: &[char] = &chars[(sp + 2)..chars.len()];
    proof {
        let (t, r) = text::split_once(line@, ' ')->0;
        assert(tags_part@ =~= t.drop_first());
        assert(rest@ =~= r.drop_first());
    }
    let colon: [char; 1] = [':'];
    let colon_chars: &[char] = &colon;
    assert(colon_chars@ =~= seq![':']);
    contains_exec(rest, colon_chars) && all_pieces_have_eq(tags_part)
}

/// Whether the chat loop can handle a `PRIVMSG` line (`acceptable_privmsg`).
pub fn accepts_privmsg(line: &str) -> (b: bool)
    ensures
        b == acceptable_privmsg(line@),
{
    if !is_parsable_irc(line) {
        return false;
    }
    let parsed = parse_irc(line);
    match parsed.tags.get("reply-parent-msg-body") {
        Some(_) => {
            let chars = chars_of(parsed.message.as_str());
            let space: [char; 1] = [' '];
            let space_chars: &[char] = &space;
            assert(space_chars@ =~= seq![' ']);
            contains_exec(&chars, space_chars)
        },
        None => true,
    }
}

} // verus!
