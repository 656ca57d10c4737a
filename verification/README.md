# statsig_rust (verified core)

The server SDK core of a feature-flag service, with its decision logic written in Verus and
proved against its contracts.

- `src/` is the verified library. Each module states what its functions return over spec
  functions and views; `src/laws.rs` holds the properties that span several functions
  (retry backoff and bounds, delta-stall recovery, override read-after-write, the store only
  taking newer specs, and others).
- `app/` is the unverified runtime around it: the `reqwest` transport, the retrying async
  network client, background config sync, the process-wide logger, the observability
  channels, diagnostics sampling and the serde forms of library types.
- `tests/` exercises the library on concrete values.
