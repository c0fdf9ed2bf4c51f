# skarn

The decision logic of Skarn — an OS-sandboxed MCP gateway with an embedded
Code Mode engine — written in Verus and proved against its contracts.

## Layout

- `src/` — the verified library.
  - `limits.rs`, `time.rs` — Code Mode resource limits and the safe floors
    they are raised to.
  - `budget.rs` — the per-run tool-call budget.
  - `envelope.rs`, `json.rs` — the JSON envelopes that answer host calls
    inside the isolate.
  - `engine.rs`, `bridge.rs` — the engine's limits, the source handed to the
    isolate, and the checks on the isolate's answer.
  - `sandbox.rs` — the sandbox policy, its builder, the fail-closed decision
    and the fallback backend.
  - `command.rs` — command descriptions and their display form.
  - `proto.rs` — the gateway ↔ worker messages.
  - `cli.rs` — the decisions behind the `skarn` subcommands.
  - `error.rs`, `text.rs` — the error type and decimal rendering.
- `app/` — the `skarn` binary: argument parsing, process I/O, the QuickJS
  runtime glue and the serde forms of the protocol types.
- `tests/` — tests of the library.
