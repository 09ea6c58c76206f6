# discord_client

A Discord client library whose decisions are verified with Verus.

`src/` holds the verified library:

- `auth`, `parser`, `connect`, `bootstrap`: token normalization, the
  `Authorization` header, the user id a token names, how a client connects
  (build numbers, API version, the requests that check the token and what
  their status means), and reading the API version and the challenge token
  from the web client's page.
- `routes`, `rate_limit`, `retry`: rate-limit buckets, limiters and their
  registry, and what the request loop does after each attempt.
- `response`, `json`: what a response's status and body come to; JSON bodies
  are read through small trusted readers over `serde_json`.
- `headers`, `properties`, `request`, `guild`: the headers of a request and
  the planned requests about a guild.
- `gateway`: gateway commands as JSON documents, the session state machine
  (hello, identify, heartbeats, frames, events, resuming), subscriptions and
  member-list events; the session also keeps the last sequence number and
  the presence.
- `structs`: data of channels and messages, with the codes of their kinds.

`app/` performs what the library decides: HTTP with `wreq`, the websocket,
zlib decompression, timers and locks.
