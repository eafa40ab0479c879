# counter_event

Verified logic of a few Casper contracts: a counter that announces each count
to the contracts registered for its `count` event, a logger that registers
itself with a counter and records every announcement, and a recorder of who
called it (with two small contracts that call it).

- `src/` — the library, verified with Verus. Each entry point takes the values
  that the host hands over and returns the new state and the calls to make.
  `src/laws.rs` holds the properties that span entry points.
- `app/` — the entry points on the Casper host: storage, arguments, contract
  installation and calls, around the library.
- `tests/` — scenarios and edge cases, run against the real `casper-types`.
