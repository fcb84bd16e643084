# ternary_forgiveness

Forgiveness mechanics for trust systems, verified with Verus.

- `src/` is the verified library. Trust scores are of any `Copy` type `S`; the
  library keeps every relationship's streaks, totals, forgiveness window and
  interaction history, takes the decisions (which adjustment an action applies,
  which passive forgiveness rate a relationship gets in a round, how scores are
  cut into parity chunks, whether an erasure code is embedded) and records the
  scores its caller computed.
  - `trust.rs`: trust states and actions.
  - `relationship.rs`: relationships, interactions and their bookkeeping invariant.
  - `engine.rs`: the forgiveness engine.
  - `erasure.rs`: the integer side of erasure pattern detection.
  - `laws.rs`: properties that relate the operations, proved.
- `app/` does the `f64` arithmetic on top of the library and offers the
  floating-point API (`process_action`, `apply_forgiveness`, `advance_round`,
  `repair_relationship`, `compression_advantage`, `detect_embedding`, the
  rate and window sweeps).
- `tests/` exercises the library.
