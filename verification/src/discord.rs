//! The Discord announcement of a stream: posted when the stream starts and
//! edited when it ends.

use vstd::prelude::*;

use crate::text;
use crate::text::i64_to_string;

verus! {

/// The picture of an embed.
#[derive(Debug)]
pub struct Image {
    pub url: String,
}

/// The author line of an embed.
#[derive(Debug)]
pub struct Author {
    pub name: String,
    pub icon_url: String,
}

/// A named value shown in an embed.
#[derive(Debug)]
pub struct Field {
    pub name: String,
    pub value: String,
    pub inline: bool,
}

/// A rich block of a Discord message.
#[derive(Debug)]
pub struct Embed {
    pub title: String,
    pub author: Author,
    pub url: String,
    pub image: Image,
    pub fields: Vec<Field>,
}

/// A Discord message.
#[derive(Debug)]
pub struct Message {
    pub content: String,
    pub embeds: Vec<Embed>,
}

/// The text above the announcement, which pings the stream role.
pub open spec fn announcement_content() -> Seq<char> {
    "<@&897124518374559794> Salman is streaming\n"@
}

/// The profile picture of the channel.
pub open spec fn channel_icon() -> Seq<char> {
    "https://static-cdn.jtvnw.net/jtv_user_pictures/497627b8-c550-4703-ae00-46a4a3cdc4c8-profile_image-300x300.png"@
}

/// The preview picture of the stream, with `timestamp` in the query so
/// that Discord fetches it anew.
pub open spec fn preview_url(timestamp: int) -> Seq<char> {
    "https://static-cdn.jtvnw.net/previews-ttv/live_user_sadmadladsalman-320x180.jpg?something="@
        + text::signed_decimal(timestamp)
}

/// A Discord timestamp that shows as a relative time.
pub open spec fn relative_time(timestamp: int) -> Seq<char> {
    "<t:"@ + text::signed_decimal(timestamp) + ":R>"@
}

/// `m` announces the stream `title` playing `game_name`, with a field
/// `label` that shows `timestamp` as a relative time.
pub open spec fn is_announcement(
    m: &Message,
    title: Seq<char>,
    game_name: Seq<char>,
    timestamp: int,
    label: Seq<char>,
) -> bool {
    &&& m.content@ == announcement_content()
    &&& m.embeds@.len() == 1
    &&& {
        let e = m.embeds@[0];
        &&& e.title@ == title
        &&& e.author.name@ == "SadMadLadSalMaN"@
        &&& e.author.icon_url@ == channel_icon()
        &&& e.url@ == "https://www.twitch.tv/sadmadladsalman"@
        &&& e.image.url@ == preview_url(timestamp)
        &&& e.fields@.len() == 2
        &&& e.fields@[0].name@ == "Game"@
        &&& e.fields@[0].value@ == game_name
        &&& e.fields@[0].inline
        &&& e.fields@[1].name@ == label
        &&& e.fields@[1].value@ == relative_time(timestamp)
        &&& e.fields@[1].inline
    }
}

/// The announcement with the field `label`.
fn announcement(title: &str, game_name: &str, timestamp: i64, label: &str) -> (m: Message)
    ensures
        is_announcement(&m, title@, game_name@, timestamp as int, label@),
{
    let stamp = i64_to_string(timestamp);
    let mut image_url = String::from_str(
        "https://static-cdn.jtvnw.net/previews-ttv/live_user_sadmadladsalman-320x180.jpg?something=",
    );
    image_url.append(stamp.as_str());
    let mut when = String::from_str("<t:");
    when.append(stamp.as_str());
    when.append(":R>");
    let mut fields: Vec<Field> = Vec::new();
    fields.push(Field { name: String::from_str("Game"), value: String::from_str(game_name), inline: true });
    fields.push(Field { name: String::from_str(label), value: when, inline: true });
    let embed = Embed {
        title: String::from_str(title),
        author: Author {
            name: String::from_str("SadMadLadSalMaN"),
            icon_url: String::from_str(
                "https://static-cdn.jtvnw.net/jtv_user_pictures/497627b8-c550-4703-ae00-46a4a3cdc4c8-profile_image-300x300.png",
            ),
        },
        url: String::from_str("https://www.twitch.tv/sadmadladsalman"),
        image: Image { url: image_url },
        fields,
    };
    let mut embeds: Vec<Embed> = Vec::new();
    embeds.push(embed);
    Message { content: String::from_str("<@&897124518374559794> Salman is streaming\n"), embeds }
}

/// The announcement of a stream that started at `timestamp` (seconds since
/// the epoch).
pub fn online_message(title: &str, game_name: &str, timestamp: i64) -> (m: Message)
    ensures
        is_announcement(&m, title@, game_name@, timestamp as int, "Started"@),
{
    announcement(title, game_name, timestamp, "Started")
}

/// The edited announcement of a stream that ended at `timestamp`.
pub fn offline_message(title: &str, game_name: &str, timestamp: i64) -> (m: Message)
    ensures
        is_announcement(&m, title@, game_name@, timestamp as int, "Ended"@),
{
    announcement(title, game_name, timestamp, "Ended")
}

/// The address of the announcement with id `message_id`, for editing it.
pub fn announcement_url(message_id: &str) -> (r: String)
    ensures
        r@ == "https://discordapp.com/api/channels/575540932028530699/messages/"@ + message_id@,
{
    let mut r = String::from_str("https://discordapp.com/api/channels/575540932028530699/messages/");
    r.append(message_id);
    r
}

} // verus!
