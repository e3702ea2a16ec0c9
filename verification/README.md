# hackline

A verified library for a device tunnelling gateway and its device SDK,
plus the types of an AI provider runner.

- `src/` — the library, written in Verus. Device ids (`zid`), key
  expressions and their parser (`keyexpr`), message envelopes (`msg`,
  `string_map`), topic validation and publications (`client`), the
  fan-in rules (`msg_fanin`), HTTP host routing (`http_router`), the
  configuration rules (`config`), the log query builder and table rows
  (`db`), REST decisions and bodies (`api`), TLS rules (`tls`), and the
  runner types and registry (`runner`). Proof functions named `law_*`
  state the properties that hold across calls.
- `tests/` — tests that run the compiled library.
- `app/` — plain Rust around the library: the Zenoh session and byte
  tunnels, the message-plane fan-in driver, the SQLite repositories, the TOML loader, tracing, the async
  runner trait, and serde forms of the library's types.
