//! Layout of the buffer that host and resident kernel share, for one token per
//! step and 512 blocks per sequence.
use vstd::prelude::*;

verus! {

/// Tokens per step.
pub const N: usize = 1;

/// Entries of the block table.
pub const MAX_BLOCKS: usize = 512;

/// Steps that the host has released.
pub const OFFSET_CPU_STEP: usize = 0;

/// Steps that the kernel has finished.
pub const OFFSET_GPU_STEP: usize = 4;

/// Whether the kernel has to stop.
pub const OFFSET_STOP_FLAG: usize = 8;

pub const OFFSET_INPUT_IDS: usize = 64;

pub const OFFSET_POSITIONS: usize = 68;

pub const OFFSET_SEQ_LENS: usize = 72;

pub const OFFSET_SLOT_MAPPING: usize = 80;

pub const OFFSET_BLOCK_TABLE_STRIDE: usize = 88;

pub const OFFSET_BLOCK_TABLE: usize = 96;

pub const OFFSET_OUTPUT_TOKENS: usize = 2144;

/// Bytes of the buffer: one page, of which 2148 are used.
pub const PROTOCOL_BYTES: usize = 4096;

} // verus!
