//! Chat commands: the context a command runs with and the replies of the
//! built-in commands.

use vstd::prelude::*;

use crate::dict::StrMap;
use crate::irc::{privmsg_prefix, to_irc_message, TwitchIrcMessage};
use crate::text;
use crate::alert::{sample_alert, sample_for, AlertView};
use crate::song_requests::{SongRequest, SongRequestsError};
use crate::text::{
    chars_of, find_char_exec, i64_to_string, rfind_char_exec, split_char, split_lines, str_eq,
    string_of, u64_to_string,
};
use crate::Alert;

verus! {

/// What a chat command runs with: its whitespace-separated arguments and
/// the message that invoked it.
#[derive(Debug)]
pub struct Context {
    pub args: Vec<String>,
    pub message_metadata: TwitchIrcMessage,
}

/// The arguments of a context, as character sequences.
pub open spec fn args_view(args: Seq<String>) -> Seq<Seq<char>> {
    args.map_values(|a: String| a@)
}

/// The chat line that says `msg`.
pub open spec fn chat(msg: Seq<char>) -> Seq<char> {
    privmsg_prefix() + msg
}

/// What `Context::set_working_on` writes to the working-on file.
pub fn working_on_line(args: &str) -> (r: String)
    ensures
        r@ == "Currently: "@ + args@,
{
    let mut r = String::from_str("Currently: ");
    r.append(args);
    r
}

/// What `Context::get_working_on` reads back from the working-on file:
/// the text after its first space, or nothing.
pub fn working_on_from_file(contents: &str) -> (r: String)
    ensures
        r@ == match text::split_once(contents@, ' ') {
            Some((_, rest)) => rest,
            None => Seq::empty(),
        },
{
    let chars = chars_of(contents);
    match find_char_exec(&chars, ' ') {
        Some(i) => {
            proof {
                text::lemma_find_from(chars@, seq![' '], 0);
                assert(text::occurs_at(chars@, seq![' '], i as int));
            }
            assert(i < chars.len());
            string_of(&chars, i + 1, chars.len())
        },
        None => String::new(),
    }
}

/// The text a command script sends: with one argument, that argument;
/// with a second argument, both joined when the second is present and
/// nothing when it is absent.
pub fn script_message(first: &str, extra: Option<Option<&str>>) -> (r: String)
    ensures
        r@ == match extra {
            None => first@,
            Some(Some(e)) => first@ + e@,
            Some(None) => Seq::empty(),
        },
{
    match extra {
        None => String::from_str(first),
        Some(Some(e)) => {
            let mut r = String::from_str(first);
            r.append(e);
            r
        },
        Some(None) => String::new(),
    }
}

/// Replies with a fixed text.
#[derive(Debug)]
pub struct NerdCommand {
    message: String,
}

impl NerdCommand {
    pub fn new(message: String) -> (c: NerdCommand)
        ensures
            c.message() == message@,
    {
        NerdCommand { message }
    }

    /// The text the command replies with.
    pub closed spec fn message(&self) -> Seq<char> {
        self.message@
    }

    /// The chat line the command sends.
    pub fn reply(&self) -> (r: String)
        ensures
            r@ == chat(self.message()),
    {
        to_irc_message(self.message.as_str())
    }
}

/// Answers `ping` with `pong`, in Arabic when the command was not typed in
/// ASCII.
#[derive(Debug)]
pub struct PingCommand {
    command: String,
}

/// The reply word for a ping command.
pub open spec fn ping_reply(command: Seq<char>, delim: char) -> Seq<char> {
    if text::all_ascii(command) {
        seq![delim] + "pong"@
    } else {
        seq![delim] + "\u{64a}\u{643}\u{632}"@
    }
}

impl PingCommand {
    pub fn new(command: String) -> (c: PingCommand)
        ensures
            c.command() == command@,
    {
        PingCommand { command }
    }

    /// The command as typed.
    pub closed spec fn command(&self) -> Seq<char> {
        self.command@
    }

    /// The chat line the command sends, `delim` being the command prefix.
    pub fn reply(&self, delim: char) -> (r: String)
        ensures
            r@ == chat(ping_reply(self.command(), delim)),
    {
        let mut word = String::new();
        word.push(delim);
        if self.command.as_str().is_ascii() {
            word.append("pong");
            assert(word@ =~= seq![delim] + "pong"@);
        } else {
            word.append("\u{64a}\u{643}\u{632}");
            assert(word@ =~= seq![delim] + "\u{64a}\u{643}\u{632}"@);
        }
        to_irc_message(word.as_str())
    }
}

/// The bytes that `urlencoding::encode` leaves as they are: ASCII letters,
/// digits and `-`, `.`, `_`, `~`.
pub open spec fn url_unreserved(b: u8) -> bool {
    (48 <= b <= 57) || (65 <= b <= 90) || (97 <= b <= 122) || b == 45 || b == 46 || b == 95 || b
        == 126
}

/// An uppercase hexadecimal digit for `d < 16`.
pub open spec fn hex_upper(d: u8) -> char {
    if d < 10 {
        ((d + 48) as u8) as char
    } else {
        ((d + 55) as u8) as char
    }
}

/// The percent-encoding of a byte sequence that keeps the unreserved bytes
/// and writes every other byte as `%` and two uppercase hex digits.
pub open spec fn url_encoded(bytes: Seq<u8>) -> Seq<char>
    decreases bytes.len(),
{
    if bytes.len() == 0 {
        Seq::empty()
    } else {
        let b = bytes[0];
        let head = if url_unreserved(b) {
            seq![b as char]
        } else {
            seq!['%', hex_upper(b / 16), hex_upper(b % 16)]
        };
        head + url_encoded(bytes.drop_first())
    }
}

/// Calls `urlencoding::encode`, which percent-encodes every byte of the
/// UTF-8 encoding of `s` except ASCII letters, digits and `-`, `.`, `_`,
/// `~`, writing `%` and two uppercase hexadecimal digits.
#[verifier::external_body]
fn url_encode(s: &str) -> (r: String)
    ensures
        r@ == url_encoded(vstd::utf8::encode_utf8(s@)),
{
    urlencoding::encode(s).into_owned()
}

/// The chat line with the 7TV emote search for an already encoded query.
pub fn seventv_reply(encoded_query: &str) -> (r: String)
    ensures
        r@ == chat("https://7tv.app/emotes?query="@ + encoded_query@),
{
    let mut link = String::from_str("https://7tv.app/emotes?query=");
    link.append(encoded_query);
    to_irc_message(link.as_str())
}

/// Links to a 7TV emote search.
#[derive(Debug)]
pub struct SevenTvCommand {
    query: String,
}

impl SevenTvCommand {
    pub fn new(query: String) -> (c: SevenTvCommand)
        ensures
            c.query() == query@,
    {
        SevenTvCommand { query }
    }

    /// The words searched for.
    pub closed spec fn query(&self) -> Seq<char> {
        self.query@
    }

    /// The chat line with the search link, the query being URL-encoded.
    pub fn reply(&self) -> (r: String)
        ensures
            r@ == chat("https://7tv.app/emotes?query="@ + url_encoded(vstd::utf8::encode_utf8(self.query()))),
    {
        let encoded = url_encode(self.query.as_str());
        seventv_reply(encoded.as_str())
    }
}

/// Reports the count of skip votes.
#[derive(Debug)]
pub struct VoteSkipCommand {
    voters: usize,
}

impl VoteSkipCommand {
    pub fn new(voters: usize) -> (c: VoteSkipCommand)
        ensures
            c.voters() == voters,
    {
        VoteSkipCommand { voters }
    }

    /// The number of votes so far.
    pub closed spec fn voters(&self) -> usize {
        self.voters
    }

    /// The chat line `<votes>/5 skip votes`.
    pub fn reply(&self) -> (r: String)
        ensures
            r@ == chat(text::decimal(self.voters() as nat) + "/5 skip votes"@),
    {
        let mut m = u64_to_string(self.voters as u64);
        m.append("/5 skip votes");
        to_irc_message(m.as_str())
    }
}

/// Posts the channel rules, one chat line per line.
#[derive(Debug)]
pub struct RulesCommand;

impl RulesCommand {
    /// The chat lines for the rules text.
    pub fn replies(rules: &str) -> (r: Vec<String>)
        ensures
            r@.map_values(|l: String| l@) == text::lines(rules@).map_values(
                |l: Seq<char>| chat(l),
            ),
    {
        let lines = split_lines(rules);
        let mut r: Vec<String> = Vec::new();
        let mut i: usize = 0;
        while i < lines.len()
            invariant
                i <= lines@.len(),
                lines@.map_values(|l: String| l@) == text::lines(rules@),
                r@.map_values(|l: String| l@) == text::lines(rules@).take(i as int).map_values(
                    |l: Seq<char>| chat(l),
                ),
            decreases lines@.len() - i,
        {
            let line = to_irc_message(lines[i].as_str());
            let ghost prev = r@.map_values(|l: String| l@);
            r.push(line);
            proof {
                assert(text::lines(rules@)[i as int] == lines@[i as int]@);
                assert(text::lines(rules@).take(i + 1).map_values(|l: Seq<char>| chat(l))
                    =~= prev.push(chat(lines@[i as int]@)));
                assert(r@.map_values(|l: String| l@) =~= prev.push(chat(lines@[i as int]@)));
            }
            i = i + 1;
        }
        assert(text::lines(rules@).take(i as int) =~= text::lines(rules@));
        r
    }
}

/// Posts the warranty text.
#[derive(Debug)]
pub struct WarrantyCommand;

impl WarrantyCommand {
    /// The chat line with the warranty text.
    pub fn reply(warranty: &str) -> (r: String)
        ensures
            r@ == chat(warranty@),
    {
        to_irc_message(warranty)
    }
}

/// Links to what the streamer is working on.
#[derive(Debug)]
pub struct WorkingOnCommand;

/// The working-on link message.
pub open spec fn working_on_message() -> Seq<char> {
    "You can check what I'm working in here: https://gist.github.com/BKSalman/090658c8f67cc94bfb9d582d5be68ed4"@
}

impl WorkingOnCommand {
    /// The chat line with the link.
    pub fn reply() -> (r: String)
        ensures
            r@ == chat(working_on_message()),
    {
        to_irc_message(
            "You can check what I'm working in here: https://gist.github.com/BKSalman/090658c8f67cc94bfb9d582d5be68ed4",
        )
    }
}

/// Starts the Spotify player script.
#[derive(Debug)]
pub struct PlaySpotifyCommand;

impl PlaySpotifyCommand {
    /// The chat line once the script started; nothing when it could not.
    pub fn reply(started: bool) -> (r: Option<String>)
        ensures
            started ==> (r matches Some(m) && m@ == chat("Started playing spotify"@)),
            !started ==> r is None,
    {
        if started {
            Some(to_irc_message("Started playing spotify"))
        } else {
            None
        }
    }
}

/// Stops the Spotify player script.
#[derive(Debug)]
pub struct StopSpotifyCommand;

impl StopSpotifyCommand {
    /// The chat line once the script started; nothing when it could not.
    pub fn reply(started: bool) -> (r: Option<String>)
        ensures
            started ==> (r matches Some(m) && m@ == chat("Stopped playing spotify"@)),
            !started ==> r is None,
    {
        if started {
            Some(to_irc_message("Stopped playing spotify"))
        } else {
            None
        }
    }
}

/// Reports the song Spotify is playing.
#[derive(Debug)]
pub struct CurrentSongSpotifyCommand;

impl CurrentSongSpotifyCommand {
    /// The chat line with the player script's output.
    pub fn reply(output: &str) -> (r: String)
        ensures
            r@ == chat("Current Spotify song: "@ + output@),
    {
        let mut m = String::from_str("Current Spotify song: ");
        m.append(output);
        to_irc_message(m.as_str())
    }
}

/// Triggers a sample alert on the overlay.
#[derive(Debug)]
pub struct AlertTestCommand {
    test: String,
}

/// The sample alert that the command asks for by a lowercased name: as
/// `sample_for`, except that it knows no `asd` sample.
pub open spec fn command_sample_for(name: Seq<char>) -> AlertView {
    if name == "asd"@ {
        crate::alert::raid_sample()
    } else {
        sample_for(name)
    }
}

impl AlertTestCommand {
    pub fn new(test: String) -> (c: AlertTestCommand)
        ensures
            c.test() == test@,
    {
        AlertTestCommand { test }
    }

    /// The name of the alert to test.
    pub closed spec fn test(&self) -> Seq<char> {
        self.test@
    }

    /// The sample alert for a lowercased name (see `command_sample_for`).
    pub fn alert_for(lowered: &str) -> (a: Alert)
        ensures
            a@ == command_sample_for(lowered@),
    {
        if str_eq(lowered, "asd") {
            Alert::raid_test()
        } else {
            sample_alert(lowered)
        }
    }

    /// The alert to send, the name being compared without regard to case.
    pub fn alert(&self) -> (a: Alert)
        ensures
            a@ == command_sample_for(text::lowercase(self.test())),
    {
        let lowered = self.test.as_str().to_lowercase();
        AlertTestCommand::alert_for(lowered.as_str())
    }

    /// The chat line once the alert was sent: `raid` names an empty test.
    pub fn reply(&self) -> (r: String)
        ensures
            r@ == chat(
                "Testing "@ + (if self.test().len() == 0 {
                    "raid"@
                } else {
                    self.test()
                }) + " alert"@,
            ),
    {
        let mut m = String::from_str("Testing ");
        if self.test.as_str().is_empty() {
            m.append("raid");
        } else {
            m.append(self.test.as_str());
        }
        m.append(" alert");
        to_irc_message(m.as_str())
    }
}

/// The title and requester of an optional song.
pub open spec fn song_title(song: Option<SongRequest>) -> Seq<char> {
    song->0.title@
}

/// Reports the song that is playing.
#[derive(Debug)]
pub struct CurrentSongCommand;

impl CurrentSongCommand {
    /// `Current song: <title> - by <user>`, or `No song playing`.
    pub fn reply(current: &Option<SongRequest>) -> (r: String)
        ensures
            r@ == chat(
                match current {
                    Some(song) => "Current song: "@ + song.title@ + " - by "@ + song.user@,
                    None => "No song playing"@,
                },
            ),
    {
        match current {
            Some(song) => {
                let mut m = String::from_str("Current song: ");
                m.append(song.title.as_str());
                m.append(" - by ");
                m.append(song.user.as_str());
                to_irc_message(m.as_str())
            },
            None => to_irc_message("No song playing"),
        }
    }
}

/// Resumes the player.
#[derive(Debug)]
pub struct PlayCommand;

impl PlayCommand {
    /// `Resumed <title>`, or `Queue is empty` when nothing is current.
    pub fn reply(current: &Option<SongRequest>) -> (r: String)
        ensures
            r@ == chat(
                match current {
                    Some(song) => "Resumed "@ + song.title@,
                    None => "Queue is empty"@,
                },
            ),
    {
        match current {
            Some(song) => {
                let mut m = String::from_str("Resumed ");
                m.append(song.title.as_str());
                to_irc_message(m.as_str())
            },
            None => to_irc_message("Queue is empty"),
        }
    }
}

/// Skips the song that is playing.
#[derive(Debug)]
pub struct SkipSrCommand;

impl SkipSrCommand {
    /// `Skipped: <title>` when a song was playing and the player moved on;
    /// an empty text when the player refused; `No song playing` otherwise.
    pub fn reply(current: &Option<SongRequest>, skipped: bool) -> (r: String)
        ensures
            r@ == match current {
                Some(song) => if skipped {
                    chat("Skipped: "@ + song.title@)
                } else {
                    Seq::empty()
                },
                None => chat("No song playing"@),
            },
    {
        match current {
            Some(song) => {
                if skipped {
                    let mut m = String::from_str("Skipped: ");
                    m.append(song.title.as_str());
                    to_irc_message(m.as_str())
                } else {
                    String::new()
                }
            },
            None => to_irc_message("No song playing"),
        }
    }
}

/// Links to the song queue page.
#[derive(Debug)]
pub struct QueueCommand;

impl QueueCommand {
    /// The chat line with the queue page.
    pub fn reply() -> (r: String)
        ensures
            r@ == chat("Check the queue at: https://f5rfm.bksalman.com"@),
    {
        to_irc_message("Check the queue at: https://f5rfm.bksalman.com")
    }
}

/// Pauses the player.
#[derive(Debug)]
pub struct StopCommand;

impl StopCommand {
    /// The chat line after pausing.
    pub fn reply() -> (r: String)
        ensures
            r@ == chat("Stopped playing, !play to resume"@),
    {
        to_irc_message("Stopped playing, !play to resume")
    }
}

/// Reports the stream title.
#[derive(Debug)]
pub struct GetTitleCommand;

impl GetTitleCommand {
    /// `Current stream title: <title>`.
    pub fn reply(title: &str) -> (r: String)
        ensures
            r@ == chat("Current stream title: "@ + title@),
    {
        let mut m = String::from_str("Current stream title: ");
        m.append(title);
        to_irc_message(m.as_str())
    }
}

/// Sets the stream title.
#[derive(Debug)]
pub struct SetTitleCommand {
    title: String,
}

impl SetTitleCommand {
    pub fn new(title: String) -> (c: SetTitleCommand)
        ensures
            c.title() == title@,
    {
        SetTitleCommand { title }
    }

    /// The new title.
    pub closed spec fn title(&self) -> Seq<char> {
        self.title@
    }

    /// `Set stream title to: <title>`.
    pub fn reply(&self) -> (r: String)
        ensures
            r@ == chat("Set stream title to: "@ + self.title()),
    {
        let mut m = String::from_str("Set stream title to: ");
        m.append(self.title.as_str());
        to_irc_message(m.as_str())
    }
}

/// Reports the player volume.
#[derive(Debug)]
pub struct GetVolumeCommand;

impl GetVolumeCommand {
    /// `Volume: <volume>`, or `No volume` when the player did not say.
    pub fn reply(volume: Option<i64>) -> (r: String)
        ensures
            r@ == chat(
                match volume {
                    Some(v) => "Volume: "@ + text::signed_decimal(v as int),
                    None => "No volume"@,
                },
            ),
    {
        match volume {
            Some(v) => {
                let mut m = String::from_str("Volume: ");
                let digits = i64_to_string(v);
                m.append(digits.as_str());
                to_irc_message(m.as_str())
            },
            None => to_irc_message("No volume"),
        }
    }
}

/// Sets the player volume.
#[derive(Debug)]
pub struct SetVolumeCommand {
    volume: i64,
}

impl SetVolumeCommand {
    pub fn new(volume: i64) -> (c: SetVolumeCommand)
        ensures
            c.volume() == volume,
    {
        SetVolumeCommand { volume }
    }

    /// The volume to set.
    pub closed spec fn volume(&self) -> i64 {
        self.volume
    }

    /// `Volume set to <volume>`.
    pub fn reply(&self) -> (r: String)
        ensures
            r@ == chat("Volume set to "@ + text::signed_decimal(self.volume() as int)),
    {
        let mut m = String::from_str("Volume set to ");
        let digits = i64_to_string(self.volume);
        m.append(digits.as_str());
        to_irc_message(m.as_str())
    }
}

/// Queues a requested song.
#[derive(Debug)]
pub struct SrCommand;

impl SrCommand {
    /// What is sent once the request was handled: the queue's own reply
    /// as it is, the invalid-link notice for a refused link. (Any other
    /// failure stops the command.)
    pub fn reply(outcome: &Result<String, SongRequestsError>) -> (r: String)
        requires
            outcome matches Err(e) ==> e is InvalidYoutubeUrl,
        ensures
            match outcome {
                Ok(m) => r@ == m@,
                Err(_) => r@ == chat("Not a valid youtube URL"@),
            },
    {
        match outcome {
            Ok(m) => m.clone(),
            Err(_) => to_irc_message("Not a valid youtube URL"),
        }
    }
}

/// Why a command file could not be loaded.
#[derive(Debug, PartialEq, Eq, Structural)]
pub enum CommandsError {
    /// The file name has no extension.
    InvalidFile,
    /// The file name is not valid text.
    InvalidFileName,
}

/// The names under which the commands of the file `file_name` are known:
/// the name before the last `.`, split at every `+` into aliases.
pub open spec fn command_names(file_name: Seq<char>) -> Option<Seq<Seq<char>>> {
    match text::rsplit_once(file_name, '.') {
        Some((name, _)) => Some(text::split_all(name, '+')),
        None => None,
    }
}

/// `m` with every name of `names` set to `code`, in order.
pub open spec fn insert_all(
    m: Map<Seq<char>, Seq<char>>,
    names: Seq<Seq<char>>,
    code: Seq<char>,
) -> Map<Seq<char>, Seq<char>>
    decreases names.len(),
{
    if names.len() == 0 {
        m
    } else {
        insert_all(m, names.drop_last(), code).insert(names.last(), code)
    }
}

/// The (file name, contents) pairs of `files`, as sequences of characters.
pub open spec fn file_views(files: Seq<(String, String)>) -> Seq<(Seq<char>, Seq<char>)> {
    files.map_values(|f: (String, String)| (f.0@, f.1@))
}

/// The commands of a directory whose files, in the order in which they are
/// read, are `files` (file name, contents): each file's contents under every
/// name that its file name gives, a later file replacing an earlier file's
/// command of the same name; none when a file name has no extension.
pub open spec fn files_commands(files: Seq<(Seq<char>, Seq<char>)>) -> Option<
    Map<Seq<char>, Seq<char>>,
>
    decreases files.len(),
{
    if files.len() == 0 {
        Some(Map::empty())
    } else {
        match files_commands(files.drop_last()) {
            Some(m) => match command_names(files.last().0) {
                Some(names) => Some(insert_all(m, names, files.last().1)),
                None => None,
            },
            None => None,
        }
    }
}

/// Once a prefix of the files cannot be loaded, neither can the whole list.
pub proof fn lemma_files_commands_refused(files: Seq<(Seq<char>, Seq<char>)>, i: int)
    requires
        0 <= i <= files.len(),
        files_commands(files.take(i)) is None,
    ensures
        files_commands(files) is None,
    decreases files.len(),
{
    if i < files.len() {
        assert(files.drop_last().take(i) =~= files.take(i));
        lemma_files_commands_refused(files.drop_last(), i);
    } else {
        assert(files.take(i) =~= files);
    }
}

/// The scripts of the chat commands, by command name.
#[derive(Debug)]
pub struct CommandsLoader {
    commands: StrMap,
}

impl View for CommandsLoader {
    type V = Map<Seq<char>, Seq<char>>;

    closed spec fn view(&self) -> Map<Seq<char>, Seq<char>> {
        self.commands@
    }
}

impl CommandsLoader {
    /// A loader that knows no command.
    pub fn new() -> (l: CommandsLoader)
        ensures
            l@ == Map::<Seq<char>, Seq<char>>::empty(),
    {
        CommandsLoader { commands: StrMap::new() }
    }

    /// The names under which the commands of the file `file_name` are
    /// known (see `command_names`); a name without an extension is refused.
    pub fn commands_in_file(file_name: &str) -> (r: Result<Vec<String>, CommandsError>)
        ensures
            match command_names(file_name@) {
                Some(names) => r matches Ok(v) && v@.map_values(|n: String| n@) == names,
                None => r == Err::<Vec<String>, CommandsError>(CommandsError::InvalidFile),
            },
    {
        let chars = chars_of(file_name);
        match rfind_char_exec(&chars, '.') {
            Some(dot) => {
                proof {
                    text::lemma_rfind_char_before(chars@, '.', chars@.len() as int);
                }
                let name: &[char] = &chars[0usize..dot];
                Ok(split_char(name, '+'))
            },
            None => Err(CommandsError::InvalidFile),
        }
    }

    /// The commands of a directory whose files, in the order in which they
    /// are read, are `files` (file name, contents); a file name without an
    /// extension refuses the whole directory (see `files_commands`).
    pub fn from_files(files: &Vec<(String, String)>) -> (r: Result<CommandsLoader, CommandsError>)
        ensures
            match files_commands(file_views(files@)) {
                Some(m) => r matches Ok(l) && l@ == m,
                None => r == Err::<CommandsLoader, CommandsError>(CommandsError::InvalidFile),
            },
    {
        let ghost fv = file_views(files@);
        let mut loader = CommandsLoader::new();
        let mut i: usize = 0;
        assert(fv.take(0) =~= Seq::<(Seq<char>, Seq<char>)>::empty());
        while i < files.len()
            invariant
                i <= files@.len(),
                fv == file_views(files@),
                files_commands(fv.take(i as int)) == Some(loader@),
            decreases files@.len() - i,
        {
            let (name, code) = &files[i];
            assert(fv.take(i + 1).drop_last() =~= fv.take(i as int));
            assert(fv.take(i + 1).last() == (name@, code@));
            let names = match Self::commands_in_file(name.as_str()) {
                Ok(names) => names,
                Err(e) => {
                    proof {
                        lemma_files_commands_refused(fv, i + 1);
                    }
                    return Err(e);
                },
            };
            let ghost m0 = loader@;
            let ghost nv = names@.map_values(|n: String| n@);
            let mut j: usize = 0;
            assert(nv.take(0) =~= Seq::<Seq<char>>::empty());
            while j < names.len()
                invariant
                    j <= names@.len(),
                    nv == names@.map_values(|n: String| n@),
                    loader@ == insert_all(m0, nv.take(j as int), code@),
                decreases names@.len() - j,
            {
                assert(nv.take(j + 1).drop_last() =~= nv.take(j as int));
                loader.insert(names[j].clone(), code.clone());
                j = j + 1;
            }
            assert(nv.take(names@.len() as int) =~= nv);
            i = i + 1;
        }
        assert(fv.take(files@.len() as int) =~= fv);
        Ok(loader)
    }

    /// Sets the script of the command `name`, replacing an earlier one.
    pub fn insert(&mut self, name: String, code: String)
        ensures
            final(self)@ == old(self)@.insert(name@, code@),
    {
        self.commands.insert(name, code);
    }

    /// The script of the command `path`, when one is known.
    pub fn load(&self, path: &str) -> (r: Option<String>)
        ensures
            match r {
                Some(code) => self@.dom().contains(path@) && code@ == self@[path@],
                None => !self@.dom().contains(path@),
            },
    {
        match self.commands.get(path) {
            Some(code) => Some(code.clone()),
            None => None,
        }
    }
}

} // verus!
