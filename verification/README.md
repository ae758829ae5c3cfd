# async_demos

Small asynchronous Rust demos (hand-written futures, a broadcast
producer/consumer, hyper services and a streaming body) whose decisions are
verified with Verus.

- `src/` — the verified library: each future, service and body is a plain
  state machine or reply builder with a contract.
- `app/` — the binary that drives them: tokio runtime, sockets, timers,
  logging, and the `Future`/`Service`/`Body` impls that adapt the library's
  types to tokio and hyper.
- `tests/` — tests on concrete values.
