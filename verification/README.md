# ort

Inference sessions of ONNX Runtime, with the logic on either side of each runtime call
verified by Verus.

- `src/session` holds `Session`. `run`, `run_with_options` and `run_binding` check what they
  are given, put together the exact arguments of the runtime call, and turn what the runtime
  left behind into named outputs. `request.rs` and `bound.rs` hold those argument lists and
  the steps between the calls; `laws.rs` states what holds of every run.
- `src/ep` holds the MPS execution provider.
- `src/text.rs` holds C strings and decimal numbers, `src/pointer.rs` addresses that are
  never null, `src/value.rs` values and the sessions that they keep alive.
- `app` makes the calls: it links the sessions to the C library through `ort-sys`.

The library makes no call into the C library itself. Each function that needs one takes a
closure for it, says what the closure is called with, and says what it returns for every
answer.

What is believed without proof is in two files: `src/session/stack.rs` (lists of
`smallvec`) and `src/shared.rs` (`Arc::clone`).
