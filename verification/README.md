# wss_rpc

A WebSocket Secure transport for an RPC daemon: remote terminals talk JSON-RPC to the daemon over
TLS-encrypted WebSocket connections.

- `src/` is the library: every decision of the transport, verified with Verus and free of I/O. Its
  state machines say what to do, and take in how it went.
- `app/` does the I/O: sockets, tasks, timers, files.
- `tests/` runs the library, with the real outside crates linked.

The library guarantees, among other things, that

- a peer that stays silent for 20 seconds gets one Ping and is dropped after 10 more, while one that
  answers, with whatever message, is kept;
- every text that a peer sends is handed on, in order, and nothing else is;
- lines and Pings leave in the order in which they came off their queues, one at a time; once the
  connection is cancelled nothing more is sent, and the socket is closed once, within a time limit;
- a transient failure of `accept`, such as a lack of file descriptors, never ends the daemon, and
  any other failure does;
- requests are served only over connections that passed the TLS handshake and the WebSocket upgrade;
- every accepted connection is counted exactly once, and taken off the count exactly once, however
  it ends, after its terminal has been removed from the registry.
