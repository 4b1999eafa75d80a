# franz

A small disk-backed message broker. Clients write to and read from named
topics over WebSocket connections; each topic is stored on disk in pages.

- `src/` is the verified library: configuration values and the rules for
  gathering configuration files (`config`), the client handshake
  (`handshake`), the topic table and the answers to requests that cannot be
  served (`server`), and the producer and consumer sessions as state
  machines (`session`).
- `app/` is the executable around it: reading files, the TOML and JSON
  forms of the library's types, the network and the drivers that run the
  sessions' state machines.
- `tests/` runs the library on concrete values.
