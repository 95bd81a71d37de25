# local_w2g

A watch-party system: a server that keeps a shared playlist, chat log and playback
state, and desktop clients that download the videos, play them in mpv and stay in sync.

`src/` is the verified library (Verus). It holds the decisions of both sides:

- `protocol`: identifiers, permission flags and the messages exchanged;
- `commands`: what each server command requires, checks, decides and logs, and how its
  messages are routed to the connected users;
- `uploads`, `downloads`: the chunked upload plan and the server's upload sessions; the
  client's download directory, progress throttling and widget reports;
- `dispatch`, `session`, `player`, `room`: how the client answers server messages, keeps
  its connection, talks to mpv's IPC socket and tracks room ownership;
- `media`, `paths`, `sizes`, `text`, `config`, `server_config`, `provider`: track
  listings, path pieces, human-readable sizes, text helpers and settings.

`app/` is the unverified edge around it: sockets, HTTP, files, processes and JSON.
`tests/` runs the library on concrete values.
