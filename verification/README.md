# Vehicle information service

Clients connect over a websocket, read the latest value of a vehicle signal,
subscribe to its changes and are notified when it changes.

- `src/` holds what the service and its client decide, with contracts that Verus
  proves: the state of each connected client, who gets which signal, how each request
  is answered, and what a waiting request makes of what comes back. The files that end
  in `_laws.rs` state what holds across several requests.
- `src/outside.rs`, `src/clock.rs` and `src/identifier.rs` hold the calls into other
  crates and the standard library that the proofs take as given.
- `app/` holds the sockets, channels, timers and the text form of messages.
- `tests/` runs the library on concrete requests and signals.
