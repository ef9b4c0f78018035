# armature_http_client

The core of an HTTP client, verified with Verus: retries with backoff, a circuit
breaker, request building, interceptors and the decisions that tie them together.

- `src/` is the library. Nothing in it waits or touches a socket: an `Execution`
  says what to do next (run an interceptor, send, wait, return) and is told what
  came of it. Contracts speak of views such as `BreakerView`, `BuilderView` and
  `ExecutionView`; the `*_laws` modules state what holds over several calls.
- `app/` drives the library with `reqwest` and `tokio`, runs user hooks and logs.
- `tests/` runs the library on concrete values.

What is taken on trust of `std`, `http`, `url`, `bytes` and `base64` stands in
`src/clock.rs`, `src/text.rs`, `src/header.rs` and `src/wire.rs`.
