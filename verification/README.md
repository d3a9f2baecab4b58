# sadmadbotlad

A Twitch chat bot for one channel, with its logic verified by Verus.

- `src/` is the library. Every function there has a contract, and Verus proves
  it, except the few marked `#[verifier::external_body]`, which call outside
  crates (serde_json, chrono, html-escape, urlencoding) and whose contracts
  are trusted. The library covers parsing IRC lines and tags, reading
  EventSub frames and YouTube answers out of their JSON, deciding what each
  chat frame and each EventSub message leads to, the replies of the chat
  commands, the song-request queue (first in, first out, twenty slots),
  YouTube links and search queries, the Discord stream announcement, the
  token refresh schedule, and the state of the overlay pages (activity feed,
  alert overlay, song list) with the reading of the event history they are
  sent. The `simple_bot` module holds the smaller bot: commands recognised
  by prefix, what each of them does, and a fixed queue that hands out the
  current song once it is empty.
- `tests/` runs the library on concrete values.
- `app/` is the program. It handles the websockets, HTTP requests, OBS, the
  player, the SQLite event store and the command scripts, and turns the
  library's values into JSON where a service wants JSON. What it does with
  each message is decided in the library; the rest is reading, sending and
  waiting. The overlay pages run in the browser as a program of their own
  and are not part of `app/`.
