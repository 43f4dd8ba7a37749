# jinn_domain

The session domain of a terminal chat client for language models, written in
Verus. The functions under `src/` carry contracts that Verus proves, except
a few trusted wrappers (marked `#[verifier::external_body]`) whose bodies
call outside code: the clock (`jiff::Timestamp::now`, `std::time::Instant`),
jiff's nanosecond count and UTC calendar, serde_json's reading and writing
of documents and its numbers, and `str::to_lowercase`. Their contracts are believed, not
proved; each one's doc comment says what it claims.

- `src/` — the verified library: chat entries and their context overrides,
  the phase and lifecycle state machines, the session state and its
  operations (streaming, tool calls, history mutations, selection and
  scrolling, pins), token accounting and session trees, the session actor's
  decisions (turn handling, restore, startup order, notices), and the JSON
  rewrites applied by schema migrations.
- `app/` — ordinary Rust around the library: the session actor's event
  handling over a session store, the SQLite migrations, serde forms of the
  stored types, error messages, and cost totals in floating point.
- `tests/` — tests of the library, run against the compiled crate.

Outside crates: `jiff` (time stamps, called from `src/` through trusted
wrappers), `serde_json` (JSON documents, likewise), and in `app/` `rusqlite`,
`serde`, `error-stack`, `wherror` and `tracing`.
