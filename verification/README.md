# plz

A daemon that checks interactive shell commands before they run, and a client
that asks it. The first check starts the daemon; later shells share its Unix
socket and its permanent SQLite cache.

- `src/` is the library. It takes every decision and does no input or output;
  Verus proves each function against its contract. `store.rs`, `check.rs`,
  `connect.rs`, `provider.rs` and `whole.rs` also state what holds of whole
  runs: that a kept verdict is never asked for again, that a failure never lets
  a command run, that a command runs just when its verdict allows it or the user
  confirms it.
- `app/` is the program around it: the database, the sockets, the HTTP client,
  the terminal and the fish script.
- `tests/` runs the library.

JSON values are those of `serde_json`; `src/json.rs` says what is relied on.
`src/terminal.rs` relies on `{:?}` showing equal texts alike. These are the
trusted items of the library.
