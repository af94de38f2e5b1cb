//! What the lowering pass reads: model parameters, instructions, and the
//! kernel choices that a calibrated picker made for the quantized products.
use crate::lowered::MetalDtype;
use vstd::prelude::*;

verus! {

/// Shape parameters of one model.
///
/// Floating-point parameters are held as the bits of an `f32`: the pass hands
/// them on without computing with them.
#[derive(Clone, Copy, Debug, PartialEq, Eq)]
pub struct CanonicalParams {
    pub head_dim: u32,
    pub num_q_heads: u32,
    pub num_kv_heads: u32,
    pub rot_dim: u32,
    pub block_size: u32,
    pub max_blocks_per_seq: u32,
    pub blocks_per_chunk: u32,
    pub q_size: usize,
    pub intermediate_size: usize,
    pub attn_scale_bits: u32,
    pub rms_norm_eps_bits: u32,
    pub norm_weight_offset_bits: u32,
    pub metal_dtype: MetalDtype,
}

/// One instruction of a forward tape. Slots are arena slots; layers are
/// relative to the enclosing loop's iteration.
#[derive(Clone, Copy, Debug, PartialEq, Eq)]
pub enum Instruction {
    /// `(out)`
    Embed(u32),
    /// `(in, out, layer)`
    RmsNorm(u32, u32, u32),
    /// `(delta, residual, layer)`
    FusedAddRmsNorm(u32, u32, u32),
    /// `(in, out, layer, n, k)`
    Gemm(u32, u32, u32, u32, u32),
    /// `(in, out, layer, n, k, group_size, bits, vector_limit)`
    AffineQmm(u32, u32, u32, u32, u32, u32, u32, u32),
    /// `(gate, up, out)`
    SiluMul(u32, u32, u32),
    /// `(out, group_size, bits)`
    AffineEmbed(u32, u32, u32),
    /// `(in, out, layer)`
    FusedGateUpSiluMul(u32, u32, u32),
    /// `(q, k, v, q_out, k_out, v_out, layer, interleaved)`
    RopeAppend(u32, u32, u32, u32, u32, u32, u32, bool),
    /// `(in, out, layer, biased, interleaved)`
    FusedQkvRopeCache(u32, u32, u32, bool, bool),
    /// `(residual, delta, q_out, layer, group_size, bits, symbol, has_linear_bias)`
    SynthPreAttn(u32, u32, u32, u32, u32, u32, &'static str, bool),
    /// `(residual, delta, silu_mul_out, layer, group_size, bits, symbol)`
    SynthMlpPreDown(u32, u32, u32, u32, u32, u32, &'static str),
    /// `(x_norm, out, layer, group_size, bits, symbol)`
    SynthGateUpSiluMul(u32, u32, u32, u32, u32, &'static str),
    /// `(q, out, layer, is_decode)`
    AttentionViaCache(u32, u32, u32, bool),
    /// `(q, k, v, out, interleaved)`; no Metal model emits it.
    AttentionPrefillContiguous(u32, u32, u32, u32, bool),
    /// `(q, out, layer, interleaved)`
    AttentionPrefillPaged(u32, u32, u32, bool),
    /// `(delta, residual)`
    Add(u32, u32),
    /// `(in, out, scale as the bits of an f32)`
    ScalarMul(u32, u32, u32),
    /// `(in, out, layer, n, is_affine)`
    MetalBiasAdd(u32, u32, u32, u32, bool),
    /// Rebinds a slot under another shape.
    Reshape(u32, u32, u32, u32, u32, u32),
    /// Names a slot a second time.
    Alias(u32, u32),
    /// Ends the life of a slot.
    Free(u32),
    /// `(count, body_len)`: runs the next `body_len` instructions `count`
    /// times, raising their layers by one each time.
    Loop(u32, u32),
    /// An instruction without a Metal lowering, by its type name.
    Other(&'static str),
}

/// Element type that a quantized kernel computes in.
#[derive(Clone, Copy, Debug, PartialEq, Eq, Structural)]
pub enum DequantDtype {
    F16,
    Bf16,
}

/// Element type that quantization scales and norm gains are stored in.
#[derive(Clone, Copy, Debug, PartialEq, Eq, Structural)]
pub enum ScaleDtype {
    F16,
    Bf16,
}

/// Variant of the affine matrix-vector kernel.
#[derive(Clone, Copy, Debug, PartialEq, Eq, Structural)]
pub enum QmvKernel {
    /// For an inner dimension of exactly `d`.
    Quad { d: u32 },
    Fast,
    Generic,
}

/// Variant of the affine matrix kernel.
#[derive(Clone, Copy, Debug, PartialEq, Eq, Structural)]
pub enum QmmTKernel {
    Standard,
    SplitK { split_k: u32, k_partition_size: u32 },
    Nax,
}

/// A picked matrix-vector kernel with its grid and symbol.
#[derive(Clone, Copy, Debug, PartialEq, Eq)]
pub struct QmvChoice {
    pub kernel: QmvKernel,
    pub threadgroups: (u32, u32, u32),
    pub threads_per_threadgroup: (u32, u32, u32),
    pub function: &'static str,
}

/// A picked matrix kernel with its grid, its symbols for an output width that
/// is a multiple of the tile and for one that is not, and the symbol that sums
/// split-K partials.
#[derive(Clone, Copy, Debug, PartialEq, Eq)]
pub struct QmmTChoice {
    pub kernel: QmmTKernel,
    pub threadgroups: (u32, u32, u32),
    pub threads_per_threadgroup: (u32, u32, u32),
    pub function_aligned: &'static str,
    pub function_unaligned: &'static str,
    pub reduce_function: &'static str,
}

/// What the picker chose for one quantized product.
#[derive(Clone, Copy, Debug, PartialEq, Eq)]
pub enum KernelChoice {
    Qmv(QmvChoice),
    QmmT(QmmTChoice),
}

/// What a picker is asked for one quantized product.
#[derive(Clone, Copy, Debug, PartialEq, Eq)]
pub enum KernelQuery {
    /// A matrix-vector kernel for `m` rows.
    Qmv {
        m: u32,
        n: u32,
        k: u32,
        group_size: u32,
        bits: u32,
        dtype: DequantDtype,
        scale_dtype: ScaleDtype,
    },
    /// A matrix kernel for `m` rows.
    QmmT {
        m: u32,
        n: u32,
        k: u32,
        group_size: u32,
        bits: u32,
        dtype: DequantDtype,
        scale_dtype: ScaleDtype,
    },
}

} // verus!
