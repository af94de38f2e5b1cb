//! Function constants per kernel family.
//!
//! Each struct lists every constant slot that its kernels read. `into_values`
//! writes them out in slot order.
use crate::ids::{
    AttnDebugMode, AttnScale, BlockSize, BlocksPerChunk, BucketM, ConstSlot, HeadDim,
    HiddenSize, IntermediateSize, KDimI32, KPartitionSizeI32, MDimI32, MaxBlocksPerSeq,
    NDim, NDimI32, NormWeightOffset, NumKvHeads, NumQHeads, QSize, RmsNormEps, RotDim,
    SplitK,
};
use crate::lowered::ConstantValue;
use vstd::prelude::*;

verus! {

/// The constants of one kernel family.
pub trait FunctionConstants: Sized {
    /// The constants in the order of the kernel's header.
    spec fn values(self) -> Seq<ConstantValue>;

    /// Writes the constants out.
    fn into_values(self) -> (v: Vec<ConstantValue>)
        ensures
            v@ == self.values(),
    ;
}

/// Token-embedding gather.
#[derive(Clone, Copy, Debug, PartialEq, Eq)]
pub struct EmbedConstants {
    pub bucket_m: BucketM,
    pub q_size: QSize,
}

impl FunctionConstants for EmbedConstants {
    open spec fn values(self) -> Seq<ConstantValue> {
        seq![
            ConstantValue::Uint { slot: ConstSlot(0), value: self.bucket_m.0 },
            ConstantValue::Uint { slot: ConstSlot(1), value: self.q_size.0 },
        ]
    }

    fn into_values(self) -> (v: Vec<ConstantValue>) {
        vec![
            ConstantValue::uint(0, self.bucket_m.get()),
            ConstantValue::uint(1, self.q_size.get()),
        ]
    }
}

/// RMSNorm, with or without the fused residual add. The effective gain is
/// `weight + weight_offset`.
#[derive(Clone, Copy, Debug, PartialEq, Eq)]
pub struct RmsNormConstants {
    pub bucket_m: BucketM,
    pub q_size: QSize,
    pub rms_norm_eps: RmsNormEps,
    pub weight_offset: NormWeightOffset,
}

impl FunctionConstants for RmsNormConstants {
    open spec fn values(self) -> Seq<ConstantValue> {
        seq![
            ConstantValue::Uint { slot: ConstSlot(0), value: self.bucket_m.0 },
            ConstantValue::Uint { slot: ConstSlot(1), value: self.q_size.0 },
            ConstantValue::Float { slot: ConstSlot(2), bits: self.rms_norm_eps.0 },
            ConstantValue::Float { slot: ConstSlot(3), bits: self.weight_offset.0 },
        ]
    }

    fn into_values(self) -> (v: Vec<ConstantValue>) {
        vec![
            ConstantValue::uint(0, self.bucket_m.get()),
            ConstantValue::uint(1, self.q_size.get()),
            ConstantValue::float(2, self.rms_norm_eps.get()),
            ConstantValue::float(3, self.weight_offset.get()),
        ]
    }
}

/// Rotary embedding and KV-cache append.
#[derive(Clone, Copy, Debug, PartialEq, Eq)]
pub struct RopeAppendConstants {
    pub head_dim: HeadDim,
    pub num_q_heads: NumQHeads,
    pub num_kv_heads: NumKvHeads,
    pub rot_dim: RotDim,
    pub block_size: BlockSize,
    pub blocks_per_chunk: BlocksPerChunk,
}

impl FunctionConstants for RopeAppendConstants {
    open spec fn values(self) -> Seq<ConstantValue> {
        seq![
            ConstantValue::Uint { slot: ConstSlot(0), value: self.head_dim.0 },
            ConstantValue::Uint { slot: ConstSlot(1), value: self.num_q_heads.0 },
            ConstantValue::Uint { slot: ConstSlot(2), value: self.num_kv_heads.0 },
            ConstantValue::Uint { slot: ConstSlot(3), value: self.rot_dim.0 },
            ConstantValue::Uint { slot: ConstSlot(4), value: self.block_size.0 },
            ConstantValue::Uint { slot: ConstSlot(5), value: self.blocks_per_chunk.0 },
        ]
    }

    fn into_values(self) -> (v: Vec<ConstantValue>) {
        vec![
            ConstantValue::uint(0, self.head_dim.get()),
            ConstantValue::uint(1, self.num_q_heads.get()),
            ConstantValue::uint(2, self.num_kv_heads.get()),
            ConstantValue::uint(3, self.rot_dim.get()),
            ConstantValue::uint(4, self.block_size.get()),
            ConstantValue::uint(5, self.blocks_per_chunk.get()),
        ]
    }
}

/// QKV projection, rotary embedding and KV-cache write.
#[derive(Clone, Copy, Debug, PartialEq, Eq)]
pub struct FusedQkvRopeCacheConstants {
    pub q_size: QSize,
    pub num_q_heads: NumQHeads,
    pub num_kv_heads: NumKvHeads,
    pub head_dim: HeadDim,
    pub rot_dim: RotDim,
    pub block_size: BlockSize,
    pub bucket_m: BucketM,
    pub blocks_per_chunk: BlocksPerChunk,
}

impl FunctionConstants for FusedQkvRopeCacheConstants {
    open spec fn values(self) -> Seq<ConstantValue> {
        seq![
            ConstantValue::Uint { slot: ConstSlot(0), value: self.q_size.0 },
            ConstantValue::Uint { slot: ConstSlot(1), value: self.num_q_heads.0 },
            ConstantValue::Uint { slot: ConstSlot(2), value: self.num_kv_heads.0 },
            ConstantValue::Uint { slot: ConstSlot(3), value: self.head_dim.0 },
            ConstantValue::Uint { slot: ConstSlot(4), value: self.rot_dim.0 },
            ConstantValue::Uint { slot: ConstSlot(5), value: self.block_size.0 },
            ConstantValue::Uint { slot: ConstSlot(6), value: self.bucket_m.0 },
            ConstantValue::Uint { slot: ConstSlot(7), value: self.blocks_per_chunk.0 },
        ]
    }

    fn into_values(self) -> (v: Vec<ConstantValue>) {
        vec![
            ConstantValue::uint(0, self.q_size.get()),
            ConstantValue::uint(1, self.num_q_heads.get()),
            ConstantValue::uint(2, self.num_kv_heads.get()),
            ConstantValue::uint(3, self.head_dim.get()),
            ConstantValue::uint(4, self.rot_dim.get()),
            ConstantValue::uint(5, self.block_size.get()),
            ConstantValue::uint(6, self.bucket_m.get()),
            ConstantValue::uint(7, self.blocks_per_chunk.get()),
        ]
    }
}

/// Decode attention over the paged cache.
#[derive(Clone, Copy, Debug, PartialEq, Eq)]
pub struct AttentionViaCacheConstants {
    pub head_dim: HeadDim,
    pub num_q_heads: NumQHeads,
    pub num_kv_heads: NumKvHeads,
    pub attn_scale: AttnScale,
    pub block_size: BlockSize,
    pub max_blocks: MaxBlocksPerSeq,
    pub blocks_per_chunk: BlocksPerChunk,
}

impl FunctionConstants for AttentionViaCacheConstants {
    open spec fn values(self) -> Seq<ConstantValue> {
        seq![
            ConstantValue::Uint { slot: ConstSlot(0), value: self.head_dim.0 },
            ConstantValue::Uint { slot: ConstSlot(1), value: self.num_q_heads.0 },
            ConstantValue::Uint { slot: ConstSlot(2), value: self.num_kv_heads.0 },
            ConstantValue::Float { slot: ConstSlot(3), bits: self.attn_scale.0 },
            ConstantValue::Uint { slot: ConstSlot(4), value: self.block_size.0 },
            ConstantValue::Uint { slot: ConstSlot(5), value: self.max_blocks.0 },
            ConstantValue::Uint { slot: ConstSlot(6), value: self.blocks_per_chunk.0 },
        ]
    }

    fn into_values(self) -> (v: Vec<ConstantValue>) {
        vec![
            ConstantValue::uint(0, self.head_dim.get()),
            ConstantValue::uint(1, self.num_q_heads.get()),
            ConstantValue::uint(2, self.num_kv_heads.get()),
            ConstantValue::float(3, self.attn_scale.get()),
            ConstantValue::uint(4, self.block_size.get()),
            ConstantValue::uint(5, self.max_blocks.get()),
            ConstantValue::uint(6, self.blocks_per_chunk.get()),
        ]
    }
}

/// Prefill attention over the paged cache. The steel kernel also reads the
/// debug mode in slot 99.
#[derive(Clone, Copy, Debug, PartialEq, Eq)]
pub struct AttentionPrefillPagedConstants {
    pub head_dim: HeadDim,
    pub num_q_heads: NumQHeads,
    pub num_kv_heads: NumKvHeads,
    pub attn_scale: AttnScale,
    pub block_size: BlockSize,
    pub max_blocks: MaxBlocksPerSeq,
    pub blocks_per_chunk: BlocksPerChunk,
    pub debug_mode: Option<AttnDebugMode>,
}

impl FunctionConstants for AttentionPrefillPagedConstants {
    open spec fn values(self) -> Seq<ConstantValue> {
        let base = seq![
            ConstantValue::Uint { slot: ConstSlot(0), value: self.head_dim.0 },
            ConstantValue::Uint { slot: ConstSlot(1), value: self.num_q_heads.0 },
            ConstantValue::Uint { slot: ConstSlot(2), value: self.num_kv_heads.0 },
            ConstantValue::Float { slot: ConstSlot(3), bits: self.attn_scale.0 },
            ConstantValue::Uint { slot: ConstSlot(4), value: self.block_size.0 },
            ConstantValue::Uint { slot: ConstSlot(5), value: self.max_blocks.0 },
            ConstantValue::Uint { slot: ConstSlot(6), value: self.blocks_per_chunk.0 },
        ];
        match self.debug_mode {
            Some(mode) => base.push(ConstantValue::Uint { slot: ConstSlot(99), value: mode.0 }),
            None => base,
        }
    }

    fn into_values(self) -> (v: Vec<ConstantValue>) {
        let mut v = vec![
            ConstantValue::uint(0, self.head_dim.get()),
            ConstantValue::uint(1, self.num_q_heads.get()),
            ConstantValue::uint(2, self.num_kv_heads.get()),
            ConstantValue::float(3, self.attn_scale.get()),
            ConstantValue::uint(4, self.block_size.get()),
            ConstantValue::uint(5, self.max_blocks.get()),
            ConstantValue::uint(6, self.blocks_per_chunk.get()),
        ];
        if let Some(mode) = self.debug_mode {
            v.push(ConstantValue::uint(99, mode.get()));
        }
        v
    }
}

/// A debug mode adds one constant, in slot 99 and behind the others, which it
/// leaves as they are; without one, slot 99 is not filled.
pub proof fn law_debug_mode_is_appended(
    plain: AttentionPrefillPagedConstants,
    mode: AttnDebugMode,
)
    requires
        plain.debug_mode is None,
    ensures
        forall|i: int|
            0 <= i < plain.values().len() ==> (#[trigger] plain.values()[i]).const_slot() != 99,
        (AttentionPrefillPagedConstants { debug_mode: Some(mode), ..plain }).values()
            == plain.values().push(ConstantValue::Uint { slot: ConstSlot(99), value: mode.0 }),
{
}

/// Affine matrix-vector product.
#[derive(Clone, Copy, Debug, PartialEq, Eq)]
pub struct AffineQmvConstants {
    pub k: KDimI32,
    pub n: NDimI32,
}

impl FunctionConstants for AffineQmvConstants {
    open spec fn values(self) -> Seq<ConstantValue> {
        seq![
            ConstantValue::Int { slot: ConstSlot(0), value: self.k.0 },
            ConstantValue::Int { slot: ConstSlot(1), value: self.n.0 },
        ]
    }

    fn into_values(self) -> (v: Vec<ConstantValue>) {
        vec![
            ConstantValue::sint(0, self.k.get()),
            ConstantValue::sint(1, self.n.get()),
        ]
    }
}

/// Affine matrix product.
#[derive(Clone, Copy, Debug, PartialEq, Eq)]
pub struct AffineQmmTConstants {
    pub k: KDimI32,
    pub n: NDimI32,
    pub m: MDimI32,
}

impl FunctionConstants for AffineQmmTConstants {
    open spec fn values(self) -> Seq<ConstantValue> {
        seq![
            ConstantValue::Int { slot: ConstSlot(0), value: self.k.0 },
            ConstantValue::Int { slot: ConstSlot(1), value: self.n.0 },
            ConstantValue::Int { slot: ConstSlot(2), value: self.m.0 },
        ]
    }

    fn into_values(self) -> (v: Vec<ConstantValue>) {
        vec![
            ConstantValue::sint(0, self.k.get()),
            ConstantValue::sint(1, self.n.get()),
            ConstantValue::sint(2, self.m.get()),
        ]
    }
}

/// Affine matrix product with split-K partials.
#[derive(Clone, Copy, Debug, PartialEq, Eq)]
pub struct AffineQmmTSplitKConstants {
    pub k: KDimI32,
    pub n: NDimI32,
    pub m: MDimI32,
    pub k_partition_size: KPartitionSizeI32,
}

impl FunctionConstants for AffineQmmTSplitKConstants {
    open spec fn values(self) -> Seq<ConstantValue> {
        seq![
            ConstantValue::Int { slot: ConstSlot(0), value: self.k.0 },
            ConstantValue::Int { slot: ConstSlot(1), value: self.n.0 },
            ConstantValue::Int { slot: ConstSlot(2), value: self.m.0 },
            ConstantValue::Int { slot: ConstSlot(3), value: self.k_partition_size.0 },
        ]
    }

    fn into_values(self) -> (v: Vec<ConstantValue>) {
        vec![
            ConstantValue::sint(0, self.k.get()),
            ConstantValue::sint(1, self.n.get()),
            ConstantValue::sint(2, self.m.get()),
            ConstantValue::sint(3, self.k_partition_size.get()),
        ]
    }
}

/// Sum of the split-K partials.
#[derive(Clone, Copy, Debug, PartialEq, Eq)]
pub struct SplitKReduceSumConstants {
    pub bucket_m: BucketM,
    pub n: NDim,
    pub split_k: SplitK,
}

impl FunctionConstants for SplitKReduceSumConstants {
    open spec fn values(self) -> Seq<ConstantValue> {
        seq![
            ConstantValue::Uint { slot: ConstSlot(0), value: self.bucket_m.0 },
            ConstantValue::Uint { slot: ConstSlot(1), value: self.n.0 },
            ConstantValue::Uint { slot: ConstSlot(2), value: self.split_k.0 },
        ]
    }

    fn into_values(self) -> (v: Vec<ConstantValue>) {
        vec![
            ConstantValue::uint(0, self.bucket_m.get()),
            ConstantValue::uint(1, self.n.get()),
            ConstantValue::uint(2, self.split_k.get()),
        ]
    }
}

/// `silu(gate) * up`; `n` is the number of output elements.
#[derive(Clone, Copy, Debug, PartialEq, Eq)]
pub struct SiluMulConstants {
    pub n: HiddenSize,
}

impl FunctionConstants for SiluMulConstants {
    open spec fn values(self) -> Seq<ConstantValue> {
        seq![
            ConstantValue::Uint { slot: ConstSlot(0), value: self.n.0 },
        ]
    }

    fn into_values(self) -> (v: Vec<ConstantValue>) {
        vec![
            ConstantValue::uint(0, self.n.get()),
        ]
    }
}

/// Elementwise gate application, which reads the same constants as `SiluMul`.
pub type GateApplyConstants = SiluMulConstants;

/// Split of a packed query and gate projection.
#[derive(Clone, Copy, Debug, PartialEq, Eq)]
pub struct GateSplitConstants {
    pub n: HiddenSize,
    pub head_dim: u32,
    pub num_heads: u32,
}

impl FunctionConstants for GateSplitConstants {
    open spec fn values(self) -> Seq<ConstantValue> {
        seq![
            ConstantValue::Uint { slot: ConstSlot(0), value: self.n.0 },
            ConstantValue::Uint { slot: ConstSlot(1), value: self.head_dim },
            ConstantValue::Uint { slot: ConstSlot(2), value: self.num_heads },
        ]
    }

    fn into_values(self) -> (v: Vec<ConstantValue>) {
        vec![
            ConstantValue::uint(0, self.n.get()),
            ConstantValue::uint(1, self.head_dim),
            ConstantValue::uint(2, self.num_heads),
        ]
    }
}

/// Row-wise gate product.
#[derive(Clone, Copy, Debug, PartialEq, Eq)]
pub struct GateScaleConstants {
    pub n: HiddenSize,
    pub cols: u32,
}

impl FunctionConstants for GateScaleConstants {
    open spec fn values(self) -> Seq<ConstantValue> {
        seq![
            ConstantValue::Uint { slot: ConstSlot(0), value: self.n.0 },
            ConstantValue::Uint { slot: ConstSlot(1), value: self.cols },
        ]
    }

    fn into_values(self) -> (v: Vec<ConstantValue>) {
        vec![
            ConstantValue::uint(0, self.n.get()),
            ConstantValue::uint(1, self.cols),
        ]
    }
}

/// Token-embedding gather from an affine-quantized table.
#[derive(Clone, Copy, Debug, PartialEq, Eq)]
pub struct AffineEmbedConstants {
    pub hidden_size: HiddenSize,
}

impl FunctionConstants for AffineEmbedConstants {
    open spec fn values(self) -> Seq<ConstantValue> {
        seq![
            ConstantValue::Uint { slot: ConstSlot(0), value: self.hidden_size.0 },
        ]
    }

    fn into_values(self) -> (v: Vec<ConstantValue>) {
        vec![
            ConstantValue::uint(0, self.hidden_size.get()),
        ]
    }
}

/// Row copies around the sliced language-model head.
#[derive(Clone, Copy, Debug, PartialEq, Eq)]
pub struct GatherLastTokenConstants {
    pub row_stride: HiddenSize,
}

impl FunctionConstants for GatherLastTokenConstants {
    open spec fn values(self) -> Seq<ConstantValue> {
        seq![
            ConstantValue::Uint { slot: ConstSlot(0), value: self.row_stride.0 },
        ]
    }

    fn into_values(self) -> (v: Vec<ConstantValue>) {
        vec![
            ConstantValue::uint(0, self.row_stride.get()),
        ]
    }
}

/// Gate/up SwiGLU, one-token kernel.
#[derive(Clone, Copy, Debug, PartialEq, Eq)]
pub struct FusedGateUpSiluMulDecodeConstants {
    pub bucket_m: BucketM,
    pub intermediate_size: IntermediateSize,
    pub q_size: QSize,
}

impl FunctionConstants for FusedGateUpSiluMulDecodeConstants {
    open spec fn values(self) -> Seq<ConstantValue> {
        seq![
            ConstantValue::Uint { slot: ConstSlot(3), value: self.bucket_m.0 },
            ConstantValue::Uint { slot: ConstSlot(4), value: self.intermediate_size.0 },
            ConstantValue::Uint { slot: ConstSlot(5), value: self.q_size.0 },
        ]
    }

    fn into_values(self) -> (v: Vec<ConstantValue>) {
        vec![
            ConstantValue::uint(3, self.bucket_m.get()),
            ConstantValue::uint(4, self.intermediate_size.get()),
            ConstantValue::uint(5, self.q_size.get()),
        ]
    }
}

/// Gate/up SwiGLU, matrix kernel.
#[derive(Clone, Copy, Debug, PartialEq, Eq)]
pub struct FusedGateUpSiluMulPrefillConstants {
    pub bucket_m: BucketM,
    pub intermediate_size: IntermediateSize,
    pub q_size: QSize,
}

impl FunctionConstants for FusedGateUpSiluMulPrefillConstants {
    open spec fn values(self) -> Seq<ConstantValue> {
        seq![
            ConstantValue::Uint { slot: ConstSlot(6), value: self.bucket_m.0 },
            ConstantValue::Uint { slot: ConstSlot(7), value: self.intermediate_size.0 },
            ConstantValue::Uint { slot: ConstSlot(8), value: self.q_size.0 },
        ]
    }

    fn into_values(self) -> (v: Vec<ConstantValue>) {
        vec![
            ConstantValue::uint(6, self.bucket_m.get()),
            ConstantValue::uint(7, self.intermediate_size.get()),
            ConstantValue::uint(8, self.q_size.get()),
        ]
    }
}

/// Synthesized kernels, which read only the token bound.
#[derive(Clone, Copy, Debug, PartialEq, Eq)]
pub struct SynthMegakernelConstants {
    pub bucket_m: BucketM,
}

impl FunctionConstants for SynthMegakernelConstants {
    open spec fn values(self) -> Seq<ConstantValue> {
        seq![
            ConstantValue::Uint { slot: ConstSlot(0), value: self.bucket_m.0 },
        ]
    }

    fn into_values(self) -> (v: Vec<ConstantValue>) {
        vec![
            ConstantValue::uint(0, self.bucket_m.get()),
        ]
    }
}

/// Gating kernels read the number of elements first, then the width of a head
/// and the number of heads, or the columns of a row.
pub proof fn law_gate_constants(split: GateSplitConstants, scale: GateScaleConstants)
    ensures
        split.values().len() == 3,
        split.values()[0] == (ConstantValue::Uint { slot: ConstSlot(0), value: split.n.0 }),
        split.values()[1] == (ConstantValue::Uint { slot: ConstSlot(1), value: split.head_dim }),
        split.values()[2] == (ConstantValue::Uint { slot: ConstSlot(2), value: split.num_heads }),
        scale.values().len() == 2,
        scale.values()[0] == (ConstantValue::Uint { slot: ConstSlot(0), value: scale.n.0 }),
        scale.values()[1] == (ConstantValue::Uint { slot: ConstSlot(1), value: scale.cols }),
{
}

} // verus!
