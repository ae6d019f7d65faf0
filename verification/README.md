# p2p

The network side of a Bitcoin node: which connections to make and to accept, how many, what to do
when a handshake ends or a message comes in, and how nodes tell each other of the nodes they know.

- `src/` is the library, verified with Verus. `Context` and `P2P` hold the state; each operation
  says how the state moves on and gives back the effects that are to be performed, in order.
  `network_state` holds the model that the contracts speak of; `history`, `reading` and `laws` say
  what holds of several operations together.
- `tests/` runs the library on values.
- `app/` performs the effects: event loop, sockets, timers, logging and the start of the client.
  What a program brings along itself (node table, wire format, sessions, commands) is named by the
  traits in `app/ports.rs`, `app/protocol.rs` and `app/client.rs`.
