# nimbus

The verified core of Nimbus, a zero-copy RPC framework built on rkyv and
ntex. The library is written in Verus: its functions state what they return or
change in contracts that Verus proves, the calls into outside crates state
what they rely on, and the laws that tie functions together are stated and
proved as proof functions beside them.

## Layout

- `src/` — the verified library:
  - `codec` — the length-prefixed frame format, with its round-trip laws;
  - `connection` — what a framed connection decides: server reads, framed
    writes, call timeouts and outcomes;
  - `mux` — correlating concurrent calls with their responses;
  - `context`, `metadata` — request identity, deadlines, tracing, metadata;
  - `interceptor`, `timeout`, `tracing_interceptor`, `retry` — middleware;
  - `pool`, `buffer_pool` — the rules of connection and buffer reuse;
  - `discovery` — lookup choice and the order in which endpoints are offered;
  - `service` — naming and shape checks behind the `#[service]` attribute;
  - `tls`, `tcp`, `uds`, `transport`, `registry` — configurations;
  - `error`, `message`, `text` — error messages, envelopes, digits;
  - `buffers`, `clock` — the contracts of the rkyv, ntex-bytes and std
    calls that the library makes.
- `tests/` — tests of the library, run against the real outside crates.
- `app/` — the runtime around the library: ntex sockets and servers, TLS
  handshakes, DNS lookups, timers, rkyv wire types, and code generation for
  service stubs.
