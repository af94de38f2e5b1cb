# ferrite_forward

The interpreter of a language-model forward pass, as a verified library.

A forward pass is a tape of instructions. `src/` decides and computes:

- `lowering`, `commands`, `lowered`: the tape of a bucket becomes kernel
  commands. `lowering_laws`, `layer_laws` and `arena_laws` state what holds of
  all of them, and `lowering_check` tests whether a tape can be lowered.
- `buckets`, `pool`, `runtime`, `forward`: which bucket serves a step, which
  worker runs it, and what its runtime buffers hold.
- `step`: the order of a whole step, from its inputs to the worker's return.
- `submission`, `mtl4`, `timing`, `pipelines`: how a command buffer is encoded,
  committed and timed.
- `mega`, `mega_player`, `kvm`, `persistent`: arguments, operand tables and the
  shared-memory protocol of megakernels.

Every function in `src/` has a contract that Verus proves. Floating-point
parameters are carried as bits; device pointers are carried as addresses.

`app/` performs what the library decides: locks, environment switches, Metal
and CUDA calls, and printed reports. `app/metal.rs` is built on macOS only.
