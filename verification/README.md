# hbb_common

A QUIC video relay: a client sends encoded frames as messages over a QUIC
bidirectional stream, and a relay server sends back the messages that the
client marked with a send time, so that the client can measure end-to-end
latency.

- `src/` is the verified library (Verus):
  - `clock` — wall-clock timestamps in milliseconds;
  - `video` — the message types, frame and message construction, marking
    and pacing decisions, latency;
  - `relay` — the server's decisions on accepted streams and read frames,
    with the laws of what it echoes;
  - `wire` — the messages' protobuf wire form: the protobuf runtime reads
    and writes the fields, the message schema is applied in verified code;
  - `conn` — the state of a framed connection, its send channel, the
    background send loop and its laws;
  - `transport` — QUIC transport settings and their application to quinn;
  - `tls` — the server's self-signed identity and QUIC server configuration.
- `app/` is the asynchronous plumbing (tokio, quinn streams) and the client
  and server programs.
- `tests/` exercises the library on concrete values.
