# hpos_hc_connect

Verified core of the HPOS Holochain tooling: the rules by which a HoloPort
installs, keeps, publishes and restores its happs, written in Verus and
proved against their contracts.

- `src/` — the library, verified by Verus. Each module holds one area:
  app policy and installation runs (`app_policy`, `install`), cells and
  conductor answers (`cells`, `admin`), chain restoration (`chc`, and the
  `restore` state machine), membrane
  proofs (`memproof`), service-logger time buckets (`time_buckets`), nonces,
  host keys, holo hashes in base64 (`hashes`), holofuel records and the two
  command lines, and the text helpers they share (`text`).
- `tests/` — tests run against the compiled library.
- `app/` — the process side: environment variables, files, child processes,
  clocks, and the loops that carry out an installation run and a chain
  restoration by asking the verified `InstallPlan` and `RestorePlan` for each
  next action.

Calls into outside crates (serde_json, base64, chrono, ed25519-dalek,
getrandom, holo_hash, holofuel_types) are made through small trusted wrappers whose
contracts say what the library relies on.
