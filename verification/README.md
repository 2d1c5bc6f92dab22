# Teleportal Remote — verified core

Remote desktop with collaborative cursors: a relay server pairs a host and a
guest through a 6-digit code, and the two exchange signaling, cursor, input and
video messages over WebSocket.

`src/` is the library, verified with Verus:

- `protocol`: messages, identifiers, the 6-digit session code, validation rules,
  and the length-prefixed framing of MessagePack payloads;
- `relay`: session codes, sessions, the registry, per-address rate limiting,
  the signaling state machine of a relay connection, what each incoming frame
  does to a connection, and which address a connection is counted under;
- `client`: the state shown to the user, the handshake replies, the checks of
  user commands, and the decisions of the client's session loop;
- `cursor`, `input`, `capture`: send throttling and remote cursor tracking, key
  code tables, configurations, frames and errors, and the computations of the
  native backends;
- `transport`, `updater`, `shared`, `text`, `clock`: transport errors and
  WebSocket frame handling, update helpers, version, small helpers.

`app/` is the relay server program and the I/O around the library: the serde
copies of the messages, the WebSocket transport, the client's session runner,
and the floating-point cursor and pixel computations.

`tests/` runs the library on concrete values.
