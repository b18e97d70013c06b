# multiplay_rs

A small real-time multiplayer networking server: clients open a session,
connect to it over one or more transports (a reliable "bulk" Web Socket
transport, an unreliable "unordered" one), and exchange CBOR-encoded
messages with a game through the server.

## Layout

- `src/` — the library, verified with Verus:
  - `session`, `basic_session`: session records, their transport sets and
    statuses; `transport_set`: the shared transport-set operations;
    `session_table`: the table predicates, validity check and ordered
    key listing.
  - `server`: what the server does with each transport event, how it
    admits sessions, and how it routes each game message (bulk or unordered,
    connected sessions only).
  - `admin_secret`: the administrator secret's text.
  - `address_book`: the one-to-one pairing of connections and sessions
    (kept in a `bimap::BiHashMap`).
  - `ws_transport`, `ws_gateway`: per-frame decisions of the Web Socket
    transport and of the sign-up gateway; `signup`: HTTP sign-up outcome.
  - `client`: the native client's handshake-first state machine; `probe`: a
    counting transport for exercising the server.
- `app/` — the asynchronous shell (tokio, warp, flume, tungstenite): event
  loops, sockets, CBOR encoding, the native client thread.
- `tests/` — tests of the library on concrete values.
