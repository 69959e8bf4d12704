# autopool

A worker pool that is driven by a controller. Most worker pools require you to set a number of
workers. However, the right number of workers can change based on environment conditions.
`autopool` adds or removes workers to achieve a goal throughput.

- `src/` is the library, verified with Verus: what the pool decides and counts, turn by turn.
  `src/channels.rs` and `src/tracker.rs` say what is taken for granted of `crossbeam-channel`,
  `async-std` and the clock. `src/laws.rs` states what holds of a pool as a whole.
- `app/` runs pools on `async-std`: it spawns the workers and offers their outputs as a stream.
- `tests/` runs the library with its channels.
