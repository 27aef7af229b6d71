# jsonrpsee-server

A JSON-RPC server over HTTP and WebSocket, written in Rust and verified with Verus.

- `src/` is the verified library. It configures the server, admits and routes requests, completes
  the WebSocket handshake, dispatches JSON-RPC messages, notifies connected clients and decides when
  the server and its connections come to an end. `src/properties.rs` states what holds of these
  parts together.
- `app/` runs the library on tokio and hyper: it owns sockets, tasks and locks, and turns JSON into
  values.
- `tests/` runs the library on concrete values, with the crates that it calls.

Functions of other crates that the library calls stand behind small items whose contracts are
believed without proof. Each says in its doc comment which function it stands for and what is
claimed of it. They are in `src/outside.rs`, `src/handshake.rs` and `src/rpc.rs`.
