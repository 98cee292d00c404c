# duality

Verified decision logic of the Duality Substrate node, written in Verus.

- `src/` — the library: runtime constants of the Sparrow and template
  runtimes (currency, block time, weight ratios, storage deposits),
  chain-specification selection, command-line dispatch, and the service's
  wiring decisions (telemetry, block authoring, GRANDPA).
- `tests/` — tests of the library on concrete values.
- `app/` — the node binary: argument parsing and the calls into the Substrate
  client crates, driven by the library's decisions.
