# backend

The core of a download manager backend: it takes download requests over
HTTP, fetches direct links in parallel byte ranges, hands video sites to
yt-dlp and torrents to aria2, and keeps a history in SQLite.

`src/` is the verified library (Verus):

- `text`: character-sequence search, trimming, decimal numbers.
- `model`: the download record and its status.
- `naming`: file names from URLs, readable errors, torrent and video-site
  detection, save folders, renamed copies.
- `manager`: the live downloads in a `HashMap` keyed by id (vstd's
  `StringHashMap`, whose view is a `Map` from id to record), and pause,
  resume, delete, start and history listing.
- `torrent`: the calls made to aria2, and one step of an aria2-driven
  download per status report.
- `segmented`: size probing, byte-range planning, progress and the end of
  direct downloads.
- `video`: names, sizes and the end of yt-dlp downloads.
- `api`: request checks and URL classification for the HTTP interface.
- `platform`: the calls into std (`to_lowercase`, `Path`, collecting
  characters), `serde_json` (reading yt-dlp's description, setting a member
  of a JSON text), `uuid` and `chrono` that the library trusts.

`app/` is the server around it: HTTP routes (axum), the SQLite history
(rusqlite), the network transfers (reqwest, aria2 RPC, yt-dlp), and the
background tasks (tokio).
