# inspector

Step-limited, resumable execution control for EVM inspection, verified with Verus.

- `src/control.rs`: execution controls, controlled results, suspension payloads,
  snapshot envelopes, and the snapshot codec and store traits.
- `src/counters.rs`: the mathematical model of the step accounting and its laws
  (limits are recorded once, unbounded segments never suspend, a bounded
  segment suspends exactly once, after exactly as many steps as its limit).
- `src/controlled.rs`: `ControlledInspector`, its `step`/`step_end` hooks,
  and the builders of completed and suspended results.
- `app/`: a serde-serializable copy of `SnapshotEnvelope`.
