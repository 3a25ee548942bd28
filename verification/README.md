# ironmlx

The decision logic of a serving engine for local language models, in Verus, with the ordinary Rust
around it.

- `src/` is the verified library. A scheduler actor batches requests: `driver` decides what it does
  next, `driver_rules` says the same as mathematics, and `driver_laws`, `driver_answers`,
  `driver_idle`, `driver_order`, `driver_tally` and `driver_runs` hold what is true of it whatever
  happens, the last one over whole runs. `admission` has the rules for who may join a batch, `modes` the ways a batch is decoded, `memory_budget` the check of
  the cache against the machine, `health` the reports, and `hf_transfer` the transfer of a model
  file whose size and digest are known beforehand.
- `tests/` runs the library on concrete values.
- `app/` is what cannot be verified: the actor's channels and thread, files, requests to the hub,
  the machine's memory, and JSON.

Outside work is never done in the middle of a decision. A function of the library takes what was
read and returns what to do; where several outcomes are needed, it is a state machine whose
`resume` takes one outcome at a time.
