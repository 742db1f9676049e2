# codex_mcp_extension

Shares one Codex Apps connection among everything in a process that needs the connector inventory.

- `src/` decides: which connection is current, when to connect, when an inventory is stale, what runs
  in the background, what is announced, and what is registered with the host. It is verified with
  Verus. Work that waits for something outside is written as state machines: told what happened, they
  say what to do next.
- `app/` acts: it holds the locks, runs the tasks, connects, reads the clock and logs. The process
  that embeds it supplies its login, configuration and connections through the traits in
  `app/host.rs`.
- `tests/` runs the library.

What holds of the library as a whole stands in `src/laws.rs`, `src/concurrency.rs`,
`src/tasks.rs`, `src/attempts.rs` and `src/spawn.rs`.
