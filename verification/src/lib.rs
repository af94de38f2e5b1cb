//! Tape interpreter of a language-model forward pass.
//!
//! A forward pass is a tape of instructions. On Metal, the tape of each bucket
//! is lowered once to kernel commands (`lowering`), workers are pooled and
//! handed out per step (`pool`), and each step's inputs go into runtime
//! buffers (`runtime`). On CUDA, megakernels are launched with packed
//! arguments (`mega`, `kvm`) or stay resident behind a shared-memory protocol
//! (`persistent`). The library decides and computes; device calls are left to
//! the application.

pub mod arena_laws;
pub mod arith;
pub mod buckets;
pub mod bytes;
pub mod command_laws;
pub mod commands;
pub mod executor;
pub mod forward;
pub mod ids;
pub mod instruction;
pub mod kernel_bindings;
pub mod kernel_constants;
pub mod kernel_identity;
pub mod kvm;
pub mod layer_laws;
pub mod lowered;
pub mod lowering;
pub mod lowering_check;
pub mod lowering_laws;
pub mod mega;
pub mod mega_player;
pub mod mtl4;
pub mod persistent;
pub mod pipelines;
pub mod pool;
pub mod protocol_layout;
pub mod runtime;
pub mod step;
pub mod submission;
pub mod symbols;
pub mod tape_laws;
pub mod text;
pub mod timing;
