# openjiuwen-router

A model router: for each request a host asks which model to call, calls it
itself, and reports how the call went. Reports of overflow or unavailability
exclude the model for the conversation's routing key; a success makes it the
key's affinity. The routing core is written in Verus and proved against its
contracts.

## Layout

- `src/protocol.rs`: requests, routing keys, target catalogs, decisions,
  snapshots, feedback, errors; their mathematical models.
- `src/algorithms.rs`: the `Algorithm` contract (a pure function of request
  and context) and the built-in algorithms, which pick the first target that
  is still allowed.
- `src/state.rs`: the `StateProvider` contract; the in-memory backend
  (per-key entries with a time-to-live and a capacity) and the remote backend
  (always the empty snapshot).
- `src/runtime.rs`: profiles, the algorithm pool, the decision loop and the
  `Router` facade.
- `src/evolving.rs`, `src/training.rs`: self-evolution and training jobs.
- `src/binding.rs`: rules at a host boundary: outcome text, error kinds,
  checks on what host-side algorithms return.
- `src/laws.rs`: laws that span functions, proved in Verus.
- `app/`: TOML profiles, a thread-safe router, the Python extension module
  built on PyO3, and the conversions between Python objects and protocol
  values.
- `tests/`: scenario tests.

The in-memory backend reads a monotonic clock; its verified core takes the
clock reading as an argument (`snapshot_at`, `report_at`), and the laws are
stated over those readings.
