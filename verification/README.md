# base_sequencer

A verified library for two pieces of a rollup sequencer:

- `src/seal.rs`: the payload sealer, a small state machine that tracks an
  unsealed payload through commit, gossip and insertion, and refuses a newly
  built payload while the current one is not sealed.
- `src/sequencer.rs`: the sequencer's settings and the configuration derived
  from them, including the conductor commit backoff.

`app/` holds the command-line parser (clap) and the error type with its
message (thiserror) as copies of the library's types, with conversions.
