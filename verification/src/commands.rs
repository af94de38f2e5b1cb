//! The command of each instruction.
//!
//! For every compute instruction a spec function states the command that it
//! lowers to, and an executable function of the same shape builds it.
use crate::arith::{capped_product, ceil_div, div_ceil_u32, saturating_mul_u32};
use crate::ids::{
    ArenaSlotIdx, AttnDebugMode, AttnScale, BlockSize, BlocksPerChunk, BucketM, ConstSlot, HeadDim,
    HiddenSize, IntermediateSize, KDimI32, KPartitionSizeI32, LayerId, MDimI32, MaxBlocksPerSeq,
    NDim, NDimI32, NormWeightOffset, NumKvHeads, NumQHeads, QSize, RmsNormEps, RotDim, SplitK,
};
use crate::instruction::{CanonicalParams, QmmTChoice, QmmTKernel, QmvChoice, QmvKernel};
use crate::kernel_bindings::{
    AttentionPrefillPagedBindingSet, AttentionViaCacheBindingSet, BindingSet,
    FusedQkvRopeCacheBindingSet, RopeAppendBindingSet,
};
use crate::kernel_constants::{
    AffineEmbedConstants, AffineQmmTConstants, AffineQmmTSplitKConstants, AffineQmvConstants,
    AttentionPrefillPagedConstants, AttentionViaCacheConstants, EmbedConstants,
    FunctionConstants, FusedGateUpSiluMulDecodeConstants, FusedGateUpSiluMulPrefillConstants,
    FusedQkvRopeCacheConstants, GatherLastTokenConstants, RmsNormConstants, RopeAppendConstants,
    SiluMulConstants, SplitKReduceSumConstants, SynthMegakernelConstants,
};
use crate::kernel_identity::{
    AttentionSdpaPagedBf16, AttentionSdpaPagedF16, AttentionSteelPagedBf16,
    AttentionSteelPagedF16, KernelIdentity, MetalKernel,
};
use crate::lowered::{
    Binding, CommandView, ConstantValue, DispatchShape, GemmDims, KernelId, LoweredCommand,
    MScaleAxis, MScaling, MetalDtype, RuntimeBindingKind, WeightBundleKind, WeightLocator,
    WeightTensor,
};
use crate::symbols::{
    affine_embed_kernel_static_name, affine_embed_name, dequant_dtype, dequant_dtype_for,
    embed_group_size, fused_add_rmsnorm_kernel_static_name, fused_add_rmsnorm_name,
    pick_specialized_symbol, rmsnorm_kernel_static_name, rmsnorm_name, scale_dtype_for,
    silu_mul_name, silu_mul_static_name, specialized_symbol,
};
use vstd::prelude::*;

verus! {

/// Threads per group of one-dimensional grids.
pub const THREADS_PER_GROUP: u32 = 256;

/// Rows of a dense-product tile.
pub const GEMM_TILE_M: u32 = 16;

/// Columns of a dense-product tile.
pub const GEMM_TILE_N: u32 = 16;

/// Side of the output tile of the matrix SwiGLU kernel.
pub const MLP_STEEL_TILE: u32 = 32;

/// Threads per group of the matrix SwiGLU kernel.
pub const MLP_STEEL_THREADS: u32 = 128;

/// Output rows per group of the one-token SwiGLU kernel.
pub const MLP_DECODE_BLOCK_M: u32 = 4;

/// Threads per group of the row copies around the sliced head.
pub const SAMPLE_SLICE_THREADS: u32 = 256;

/// Query rows per group of the steel attention kernel.
pub const BQ_STEEL: u32 = 32;

/// Where and for what an instruction is lowered.
#[derive(Clone, Copy, Debug, PartialEq, Eq)]
pub struct LowerSite {
    /// Parameters of the model.
    pub params: CanonicalParams,
    /// Whether prefill attention goes to the steel kernel.
    pub steel_attention: bool,
    /// Tokens of the bucket.
    pub bucket_m: u32,
    /// Tape that weight locators refer to.
    pub tape_index: u32,
    /// Position of the instruction in its tape.
    pub index: usize,
    /// Iteration of the enclosing loop; 0 outside loops.
    pub layer_offset: u32,
}

impl LowerSite {
    /// The layer that the literal `layer` names in this iteration exists.
    pub open spec fn layer_fits(self, layer: u32) -> bool {
        layer + self.layer_offset <= u32::MAX
    }

    pub open spec fn spec_layer(self, layer: u32) -> LayerId {
        LayerId((layer + self.layer_offset) as u32)
    }

    /// The layer that the literal `layer` names in this iteration.
    #[verifier::when_used_as_spec(spec_layer)]
    pub fn layer(self, layer: u32) -> (l: LayerId)
        requires
            self.layer_fits(layer),
        ensures
            l == self.spec_layer(layer),
            l.0 == layer + self.layer_offset,
    {
        LayerId(layer + self.layer_offset)
    }

    pub open spec fn spec_locator(self, slot: u32) -> WeightLocator {
        WeightLocator { bucket: self.tape_index, op_idx: self.index as u32, slot }
    }

    /// The locator of accessor `slot` of this instruction.
    #[verifier::when_used_as_spec(spec_locator)]
    pub fn locator(self, slot: u32) -> (l: WeightLocator)
        ensures
            l == self.spec_locator(slot),
    {
        WeightLocator {
            bucket: self.tape_index,
            op_idx: #[verifier::truncate] (self.index as u32),
            slot,
        }
    }

    pub open spec fn spec_scaling(self, axis: MScaleAxis) -> Option<MScaling> {
        Some(MScaling { axis, bucket_m: BucketM(self.bucket_m) })
    }

    /// Scaling along `axis` from this bucket.
    #[verifier::when_used_as_spec(spec_scaling)]
    pub fn scaling(self, axis: MScaleAxis) -> (m: Option<MScaling>)
        ensures
            m == self.spec_scaling(axis),
    {
        Some(MScaling { axis, bucket_m: BucketM(self.bucket_m) })
    }

    pub open spec fn spec_q_size(self) -> u32 {
        self.params.q_size as u32
    }

    /// The hidden size, as kernels take it.
    #[verifier::when_used_as_spec(spec_q_size)]
    pub fn q_size(self) -> (n: u32)
        ensures
            n == self.spec_q_size(),
    {
        #[verifier::truncate]
        (self.params.q_size as u32)
    }

    pub open spec fn spec_intermediate_size(self) -> u32 {
        self.params.intermediate_size as u32
    }

    /// The MLP intermediate size, as kernels take it.
    #[verifier::when_used_as_spec(spec_intermediate_size)]
    pub fn intermediate_size(self) -> (n: u32)
        ensures
            n == self.spec_intermediate_size(),
    {
        #[verifier::truncate]
        (self.params.intermediate_size as u32)
    }

    pub open spec fn spec_grid_1d(self, total_threads: int) -> DispatchShape {
        DispatchShape {
            threadgroups: (ceil_div(total_threads, THREADS_PER_GROUP as int) as u32, 1, 1),
            threads_per_threadgroup: (THREADS_PER_GROUP, 1, 1),
            m_scaling: self.scaling(MScaleAxis::X),
        }
    }

    /// A one-dimensional grid over `total_threads` that follows the number of
    /// tokens.
    pub fn grid_1d(self, total_threads: u32) -> (d: DispatchShape)
        ensures
            d == self.spec_grid_1d(total_threads as int),
    {
        let d = DispatchShape::dispatch_1d(total_threads, THREADS_PER_GROUP);
        DispatchShape {
            threadgroups: d.threadgroups,
            threads_per_threadgroup: d.threads_per_threadgroup,
            m_scaling: self.scaling(MScaleAxis::X),
        }
    }

    /// The activation type has kernel symbols.
    pub open spec fn dtype_wired(self) -> bool {
        self.params.metal_dtype !is Int4
    }

    /// Query heads plus key and value heads.
    pub open spec fn qkv_heads(self) -> int {
        self.params.num_q_heads + 2 * self.params.num_kv_heads
    }

    pub open spec fn spec_rmsnorm_constants(self) -> RmsNormConstants {
        RmsNormConstants {
            bucket_m: BucketM(self.bucket_m),
            q_size: QSize(self.q_size()),
            rms_norm_eps: RmsNormEps(self.params.rms_norm_eps_bits),
            weight_offset: NormWeightOffset(self.params.norm_weight_offset_bits),
        }
    }

    fn rmsnorm_constants(self) -> (c: RmsNormConstants)
        ensures
            c == self.spec_rmsnorm_constants(),
    {
        RmsNormConstants {
            bucket_m: BucketM(self.bucket_m),
            q_size: QSize(self.q_size()),
            rms_norm_eps: RmsNormEps(self.params.rms_norm_eps_bits),
            weight_offset: NormWeightOffset(self.params.norm_weight_offset_bits),
        }
    }
}

// ---- Embedding ----

/// Gather of embedding rows, one thread per token.
pub open spec fn embed_command(s: LowerSite, out_slot: u32) -> CommandView {
    CommandView {
        kernel: KernelId::Embed,
        library: "embed",
        function: specialized_symbol(
            "embed_f16_specialized",
            "embed_bf16_specialized",
            s.params.metal_dtype,
        ),
        constants: (EmbedConstants {
            bucket_m: BucketM(s.bucket_m),
            q_size: QSize(s.q_size()),
        }).values(),
        dispatch: s.spec_grid_1d(s.bucket_m as int),
        bindings: seq![
            Binding::arena(out_slot, 0),
            Binding::weight(
                WeightBundleKind::Embedding,
                WeightTensor::Weight,
                LayerId(0),
                s.locator(0),
                1,
            ),
            Binding::runtime(RuntimeBindingKind::InputIds, 2),
        ],
        gemm_dims: None,
    }
}

/// Lowers `Embed`.
pub fn lower_embed(s: LowerSite, out_slot: u32) -> (c: LoweredCommand)
    requires
        s.dtype_wired(),
    ensures
        c@ == embed_command(s, out_slot),
{
    let bindings = vec![
        Binding::arena(out_slot, 0),
        Binding::weight(
            WeightBundleKind::Embedding,
            WeightTensor::Weight,
            LayerId(0),
            s.locator(0),
            1,
        ),
        Binding::runtime(RuntimeBindingKind::InputIds, 2),
    ];
    assert(bindings@ =~= embed_command(s, out_slot).bindings);
    LoweredCommand {
        kernel: KernelId::Embed,
        library: "embed",
        function: pick_specialized_symbol(
            "embed_f16_specialized",
            "embed_bf16_specialized",
            s.params.metal_dtype,
        ),
        constants: (EmbedConstants {
            bucket_m: BucketM(s.bucket_m),
            q_size: QSize(s.q_size()),
        }).into_values(),
        dispatch: s.grid_1d(s.bucket_m),
        bindings,
        gemm_dims: None,
    }
}

// ---- Norms ----

/// RMSNorm, one threadgroup per token.
pub open spec fn rms_norm_command(
    s: LowerSite,
    in_slot: u32,
    out_slot: u32,
    layer: u32,
) -> CommandView {
    CommandView {
        kernel: KernelId::RmsNorm,
        library: "rmsnorm",
        function: rmsnorm_name(s.params.metal_dtype),
        constants: s.spec_rmsnorm_constants().values(),
        dispatch: DispatchShape {
            threadgroups: (s.bucket_m, 1, 1),
            threads_per_threadgroup: (THREADS_PER_GROUP, 1, 1),
            m_scaling: s.scaling(MScaleAxis::X),
        },
        bindings: seq![
            Binding::arena(out_slot, 0),
            Binding::arena(in_slot, 1),
            Binding::weight(
                WeightBundleKind::RmsNorm,
                WeightTensor::Weight,
                s.layer(layer),
                s.locator(0),
                2,
            ),
        ],
        gemm_dims: None,
    }
}

/// Lowers `RmsNorm`.
pub fn lower_rms_norm(s: LowerSite, in_slot: u32, out_slot: u32, layer: u32) -> (c: LoweredCommand)
    requires
        s.dtype_wired(),
        s.layer_fits(layer),
    ensures
        c@ == rms_norm_command(s, in_slot, out_slot, layer),
{
    let bindings = vec![
        Binding::arena(out_slot, 0),
        Binding::arena(in_slot, 1),
        Binding::weight(
            WeightBundleKind::RmsNorm,
            WeightTensor::Weight,
            s.layer(layer),
            s.locator(0),
            2,
        ),
    ];
    assert(bindings@ =~= rms_norm_command(s, in_slot, out_slot, layer).bindings);
    LoweredCommand {
        kernel: KernelId::RmsNorm,
        library: "rmsnorm",
        function: rmsnorm_kernel_static_name(s.params.metal_dtype, scale_dtype_for()),
        constants: s.rmsnorm_constants().into_values(),
        dispatch: DispatchShape {
            threadgroups: (s.bucket_m, 1, 1),
            threads_per_threadgroup: (THREADS_PER_GROUP, 1, 1),
            m_scaling: s.scaling(MScaleAxis::X),
        },
        bindings,
        gemm_dims: None,
    }
}

/// Residual add with RMSNorm, one threadgroup per token. The residual is
/// updated in place.
pub open spec fn fused_add_rms_norm_command(
    s: LowerSite,
    delta_slot: u32,
    residual_slot: u32,
    layer: u32,
) -> CommandView {
    CommandView {
        kernel: KernelId::FusedAddRmsNorm,
        library: "fused_add_rmsnorm",
        function: fused_add_rmsnorm_name(s.params.metal_dtype),
        constants: s.spec_rmsnorm_constants().values(),
        dispatch: DispatchShape {
            threadgroups: (s.bucket_m, 1, 1),
            threads_per_threadgroup: (THREADS_PER_GROUP, 1, 1),
            m_scaling: s.scaling(MScaleAxis::X),
        },
        bindings: seq![
            Binding::arena(residual_slot, 0),
            Binding::arena(delta_slot, 1),
            Binding::weight(
                WeightBundleKind::RmsNorm,
                WeightTensor::Weight,
                s.layer(layer),
                s.locator(0),
                2,
            ),
        ],
        gemm_dims: None,
    }
}

/// Lowers `FusedAddRmsNorm`.
pub fn lower_fused_add_rms_norm(
    s: LowerSite,
    delta_slot: u32,
    residual_slot: u32,
    layer: u32,
) -> (c: LoweredCommand)
    requires
        s.dtype_wired(),
        s.layer_fits(layer),
    ensures
        c@ == fused_add_rms_norm_command(s, delta_slot, residual_slot, layer),
{
    let bindings = vec![
        Binding::arena(residual_slot, 0),
        Binding::arena(delta_slot, 1),
        Binding::weight(
            WeightBundleKind::RmsNorm,
            WeightTensor::Weight,
            s.layer(layer),
            s.locator(0),
            2,
        ),
    ];
    assert(bindings@ =~= fused_add_rms_norm_command(
        s,
        delta_slot,
        residual_slot,
        layer,
    ).bindings);
    LoweredCommand {
        kernel: KernelId::FusedAddRmsNorm,
        library: "fused_add_rmsnorm",
        function: fused_add_rmsnorm_kernel_static_name(s.params.metal_dtype, scale_dtype_for()),
        constants: s.rmsnorm_constants().into_values(),
        dispatch: DispatchShape {
            threadgroups: (s.bucket_m, 1, 1),
            threads_per_threadgroup: (THREADS_PER_GROUP, 1, 1),
            m_scaling: s.scaling(MScaleAxis::X),
        },
        bindings,
        gemm_dims: None,
    }
}

// ---- Dense product ----

/// Dense product. Library and symbol are empty: the worker routes it by its
/// dimensions.
pub open spec fn gemm_command(
    s: LowerSite,
    in_slot: u32,
    out_slot: u32,
    layer: u32,
    n: u32,
    k: u32,
) -> CommandView {
    CommandView {
        kernel: KernelId::Gemm,
        library: "",
        function: "",
        constants: Seq::empty(),
        dispatch: DispatchShape {
            threadgroups: (
                ceil_div(s.bucket_m as int, GEMM_TILE_M as int) as u32,
                ceil_div(n as int, GEMM_TILE_N as int) as u32,
                1,
            ),
            threads_per_threadgroup: (GEMM_TILE_M, GEMM_TILE_N, 1),
            m_scaling: s.scaling(MScaleAxis::X),
        },
        bindings: seq![
            Binding::arena(out_slot, 0),
            Binding::arena(in_slot, 1),
            Binding::weight(
                WeightBundleKind::LinearLayer,
                WeightTensor::Weight,
                s.layer(layer),
                s.locator(0),
                2,
            ),
        ],
        gemm_dims: Some(GemmDims { m: s.bucket_m, n, k }),
    }
}

/// Lowers `Gemm`.
pub fn lower_gemm(
    s: LowerSite,
    in_slot: u32,
    out_slot: u32,
    layer: u32,
    n: u32,
    k: u32,
) -> (c: LoweredCommand)
    requires
        s.layer_fits(layer),
    ensures
        c@ == gemm_command(s, in_slot, out_slot, layer, n, k),
{
    let tg_x: u32 = div_ceil_u32(s.bucket_m, GEMM_TILE_M);
    let tg_y: u32 = div_ceil_u32(n, GEMM_TILE_N);
    let bindings = vec![
        Binding::arena(out_slot, 0),
        Binding::arena(in_slot, 1),
        Binding::weight(
            WeightBundleKind::LinearLayer,
            WeightTensor::Weight,
            s.layer(layer),
            s.locator(0),
            2,
        ),
    ];
    assert(bindings@ =~= gemm_command(s, in_slot, out_slot, layer, n, k).bindings);
    LoweredCommand {
        kernel: KernelId::Gemm,
        library: "",
        function: "",
        constants: Vec::new(),
        dispatch: DispatchShape {
            threadgroups: (tg_x, tg_y, 1),
            threads_per_threadgroup: (GEMM_TILE_M, GEMM_TILE_N, 1),
            m_scaling: s.scaling(MScaleAxis::X),
        },
        bindings,
        gemm_dims: Some(GemmDims { m: s.bucket_m, n, k }),
    }
}

// ---- Affine-quantized product ----

/// The three tensors of an affine-quantized linear layer, from argument
/// `first` on.
pub open spec fn affine_triple(layer: LayerId, locator: WeightLocator, first: int) -> Seq<Binding> {
    seq![
        Binding::weight(
            WeightBundleKind::LinearLayer,
            WeightTensor::Weight,
            layer,
            locator,
            first as u8,
        ),
        Binding::weight(
            WeightBundleKind::LinearLayer,
            WeightTensor::AffineScales,
            layer,
            locator,
            (first + 1) as u8,
        ),
        Binding::weight(
            WeightBundleKind::LinearLayer,
            WeightTensor::AffineBiases,
            layer,
            locator,
            (first + 2) as u8,
        ),
    ]
}

/// Bindings of a quantized product that writes an arena slot: weights, scales,
/// biases, input, output.
pub open spec fn affine_qmm_binding_seq(
    in_slot: u32,
    out_slot: u32,
    layer: LayerId,
    locator: WeightLocator,
) -> Seq<Binding> {
    affine_triple(layer, locator, 0) + seq![
        Binding::arena(in_slot, 3),
        Binding::arena(out_slot, 4),
    ]
}

/// Returns the bindings of a quantized product that writes an arena slot.
pub fn affine_qmm_bindings(
    in_slot: u32,
    out_slot: u32,
    layer: LayerId,
    locator: WeightLocator,
) -> (v: Vec<Binding>)
    ensures
        v@ == affine_qmm_binding_seq(in_slot, out_slot, layer, locator),
{
    vec![
        Binding::weight(WeightBundleKind::LinearLayer, WeightTensor::Weight, layer, locator, 0),
        Binding::weight(
            WeightBundleKind::LinearLayer,
            WeightTensor::AffineScales,
            layer,
            locator,
            1,
        ),
        Binding::weight(
            WeightBundleKind::LinearLayer,
            WeightTensor::AffineBiases,
            layer,
            locator,
            2,
        ),
        Binding::arena(in_slot, 3),
        Binding::arena(out_slot, 4),
    ]
}

/// Bindings of a split-K product, whose output is the shared scratch buffer.
pub open spec fn affine_qmm_splitk_binding_seq(
    in_slot: u32,
    layer: LayerId,
    locator: WeightLocator,
) -> Seq<Binding> {
    affine_triple(layer, locator, 0) + seq![
        Binding::arena(in_slot, 3),
        Binding::Scratch { binding_index: 4 },
    ]
}

/// Returns the bindings of a split-K product.
pub fn affine_qmm_splitk_bindings(
    in_slot: u32,
    layer: LayerId,
    locator: WeightLocator,
) -> (v: Vec<Binding>)
    ensures
        v@ == affine_qmm_splitk_binding_seq(in_slot, layer, locator),
{
    vec![
        Binding::weight(WeightBundleKind::LinearLayer, WeightTensor::Weight, layer, locator, 0),
        Binding::weight(
            WeightBundleKind::LinearLayer,
            WeightTensor::AffineScales,
            layer,
            locator,
            1,
        ),
        Binding::weight(
            WeightBundleKind::LinearLayer,
            WeightTensor::AffineBiases,
            layer,
            locator,
            2,
        ),
        Binding::arena(in_slot, 3),
        Binding::Scratch { binding_index: 4 },
    ]
}

/// Tag of a matrix-vector variant.
pub open spec fn qmv_kernel_id(kernel: QmvKernel) -> KernelId {
    match kernel {
        QmvKernel::Quad { .. } => KernelId::AffineQmvQuad,
        QmvKernel::Fast => KernelId::AffineQmvFast,
        QmvKernel::Generic => KernelId::AffineQmv,
    }
}

/// A matrix-vector product on the picked kernel.
pub open spec fn qmv_command(
    choice: QmvChoice,
    m_scaling: Option<MScaling>,
    in_slot: u32,
    out_slot: u32,
    layer: LayerId,
    locator: WeightLocator,
    n: u32,
    k: u32,
) -> CommandView {
    CommandView {
        kernel: qmv_kernel_id(choice.kernel),
        library: "quantized_qmv",
        function: choice.function,
        constants: (AffineQmvConstants { k: KDimI32(k as i32), n: NDimI32(n as i32) }).values(),
        dispatch: DispatchShape {
            threadgroups: choice.threadgroups,
            threads_per_threadgroup: choice.threads_per_threadgroup,
            m_scaling,
        },
        bindings: affine_qmm_binding_seq(in_slot, out_slot, layer, locator),
        gemm_dims: None,
    }
}

/// Builds a matrix-vector product on the picked kernel.
pub fn lower_qmv(
    choice: QmvChoice,
    m_scaling: Option<MScaling>,
    in_slot: u32,
    out_slot: u32,
    layer: LayerId,
    locator: WeightLocator,
    n: u32,
    k: u32,
) -> (c: LoweredCommand)
    ensures
        c@ == qmv_command(choice, m_scaling, in_slot, out_slot, layer, locator, n, k),
{
    let kernel = match choice.kernel {
        QmvKernel::Quad { .. } => KernelId::AffineQmvQuad,
        QmvKernel::Fast => KernelId::AffineQmvFast,
        QmvKernel::Generic => KernelId::AffineQmv,
    };
    LoweredCommand {
        kernel,
        library: "quantized_qmv",
        function: choice.function,
        constants: (AffineQmvConstants {
            k: KDimI32(
                #[verifier::truncate]
                (k as i32),
            ),
            n: NDimI32(
                #[verifier::truncate]
                (n as i32),
            ),
        }).into_values(),
        dispatch: DispatchShape {
            threadgroups: choice.threadgroups,
            threads_per_threadgroup: choice.threads_per_threadgroup,
            m_scaling,
        },
        bindings: affine_qmm_bindings(in_slot, out_slot, layer, locator),
        gemm_dims: None,
    }
}

/// The output width is a multiple of the kernel's tile.
pub open spec fn aligned_n(kernel: QmmTKernel, n: u32) -> bool {
    match kernel {
        QmmTKernel::Nax => n % 64 == 0,
        _ => n % 32 == 0,
    }
}

/// The picked kernel's symbol for an output of width `n`.
pub open spec fn qmm_t_function(choice: QmmTChoice, n: u32) -> &'static str {
    if aligned_n(choice.kernel, n) {
        choice.function_aligned
    } else {
        choice.function_unaligned
    }
}

/// Returns the picked kernel's symbol for an output of width `n`.
pub fn pick_qmm_t_function(choice: QmmTChoice, n: u32) -> (f: &'static str)
    ensures
        f == qmm_t_function(choice, n),
{
    let aligned = match choice.kernel {
        QmmTKernel::Nax => n % 64 == 0,
        _ => n % 32 == 0,
    };
    if aligned {
        choice.function_aligned
    } else {
        choice.function_unaligned
    }
}

/// A one-pass matrix product on the picked kernel.
pub open spec fn qmm_t_command(
    s: LowerSite,
    choice: QmmTChoice,
    in_slot: u32,
    out_slot: u32,
    layer: u32,
    n: u32,
    k: u32,
) -> CommandView {
    CommandView {
        kernel: if choice.kernel is Nax {
            KernelId::AffineQmmTNax
        } else {
            KernelId::AffineQmmT
        },
        library: if choice.kernel is Nax {
            "quantized_qmm_nax"
        } else {
            "quantized_qmm"
        },
        function: qmm_t_function(choice, n),
        constants: (AffineQmmTConstants {
            k: KDimI32(k as i32),
            n: NDimI32(n as i32),
            m: MDimI32(s.bucket_m as i32),
        }).values(),
        dispatch: DispatchShape {
            threadgroups: choice.threadgroups,
            threads_per_threadgroup: choice.threads_per_threadgroup,
            m_scaling: s.scaling(MScaleAxis::Y),
        },
        bindings: affine_qmm_binding_seq(in_slot, out_slot, s.layer(layer), s.locator(0)),
        gemm_dims: None,
    }
}

/// Builds a one-pass matrix product on the picked kernel.
pub fn lower_qmm_t(
    s: LowerSite,
    choice: QmmTChoice,
    in_slot: u32,
    out_slot: u32,
    layer: u32,
    n: u32,
    k: u32,
) -> (c: LoweredCommand)
    requires
        s.layer_fits(layer),
    ensures
        c@ == qmm_t_command(s, choice, in_slot, out_slot, layer, n, k),
{
    let nax = match choice.kernel {
        QmmTKernel::Nax => true,
        _ => false,
    };
    LoweredCommand {
        kernel: if nax {
            KernelId::AffineQmmTNax
        } else {
            KernelId::AffineQmmT
        },
        library: if nax {
            "quantized_qmm_nax"
        } else {
            "quantized_qmm"
        },
        function: pick_qmm_t_function(choice, n),
        constants: (AffineQmmTConstants {
            k: KDimI32(
                #[verifier::truncate]
                (k as i32),
            ),
            n: NDimI32(
                #[verifier::truncate]
                (n as i32),
            ),
            m: MDimI32(
                #[verifier::truncate]
                (s.bucket_m as i32),
            ),
        }).into_values(),
        dispatch: DispatchShape {
            threadgroups: choice.threadgroups,
            threads_per_threadgroup: choice.threads_per_threadgroup,
            m_scaling: s.scaling(MScaleAxis::Y),
        },
        bindings: affine_qmm_bindings(in_slot, out_slot, s.layer(layer), s.locator(0)),
        gemm_dims: None,
    }
}

/// Bytes of the `[split_k, m, n]` partials, of two bytes each, capped at
/// `u32::MAX`.
pub open spec fn splitk_bytes(split_k: u32, m: u32, n: u32) -> u32 {
    capped_product(
        capped_product(capped_product(split_k as int, m as int), n as int),
        2,
    ) as u32
}

/// Computes the bytes of split-K partials whose elements take `elem_bytes`.
pub fn splitk_scratch_for(split_k: u32, m: u32, n: u32, elem_bytes: u32) -> (b: u32)
    ensures
        b == capped_product(
            capped_product(capped_product(split_k as int, m as int), n as int),
            elem_bytes as int,
        ),
{
    saturating_mul_u32(saturating_mul_u32(saturating_mul_u32(split_k, m), n), elem_bytes)
}

/// The split-K pass: partials into the shared scratch buffer.
pub open spec fn splitk_command(
    s: LowerSite,
    choice: QmmTChoice,
    k_partition_size: u32,
    in_slot: u32,
    layer: u32,
    n: u32,
    k: u32,
) -> CommandView {
    CommandView {
        kernel: KernelId::AffineQmmTSplitK,
        library: "quantized_qmm",
        function: qmm_t_function(choice, n),
        constants: (AffineQmmTSplitKConstants {
            k: KDimI32(k as i32),
            n: NDimI32(n as i32),
            m: MDimI32(s.bucket_m as i32),
            k_partition_size: KPartitionSizeI32(k_partition_size as i32),
        }).values(),
        dispatch: DispatchShape {
            threadgroups: choice.threadgroups,
            threads_per_threadgroup: choice.threads_per_threadgroup,
            m_scaling: s.scaling(MScaleAxis::Y),
        },
        bindings: affine_qmm_splitk_binding_seq(in_slot, s.layer(layer), s.locator(0)),
        gemm_dims: None,
    }
}

/// Builds the split-K pass.
pub fn lower_splitk(
    s: LowerSite,
    choice: QmmTChoice,
    k_partition_size: u32,
    in_slot: u32,
    layer: u32,
    n: u32,
    k: u32,
) -> (c: LoweredCommand)
    requires
        s.layer_fits(layer),
    ensures
        c@ == splitk_command(s, choice, k_partition_size, in_slot, layer, n, k),
{
    LoweredCommand {
        kernel: KernelId::AffineQmmTSplitK,
        library: "quantized_qmm",
        function: pick_qmm_t_function(choice, n),
        constants: (AffineQmmTSplitKConstants {
            k: KDimI32(
                #[verifier::truncate]
                (k as i32),
            ),
            n: NDimI32(
                #[verifier::truncate]
                (n as i32),
            ),
            m: MDimI32(
                #[verifier::truncate]
                (s.bucket_m as i32),
            ),
            k_partition_size: KPartitionSizeI32(
                #[verifier::truncate]
                (k_partition_size as i32),
            ),
        }).into_values(),
        dispatch: DispatchShape {
            threadgroups: choice.threadgroups,
            threads_per_threadgroup: choice.threads_per_threadgroup,
            m_scaling: s.scaling(MScaleAxis::Y),
        },
        bindings: affine_qmm_splitk_bindings(in_slot, s.layer(layer), s.locator(0)),
        gemm_dims: None,
    }
}

/// The sum over split-K partials, one thread per output element.
pub open spec fn splitk_reduce_command(
    s: LowerSite,
    reduce_function: &'static str,
    split_k: u32,
    out_slot: u32,
    n: u32,
) -> CommandView {
    CommandView {
        kernel: KernelId::SplitKReduceSum,
        library: "quantized_splitk_reduce",
        function: reduce_function,
        constants: (SplitKReduceSumConstants {
            bucket_m: BucketM(s.bucket_m),
            n: NDim(n),
            split_k: SplitK(split_k),
        }).values(),
        dispatch: s.spec_grid_1d(capped_product(s.bucket_m as int, n as int)),
        bindings: seq![
            Binding::arena(out_slot, 0),
            Binding::Scratch { binding_index: 1 },
        ],
        gemm_dims: None,
    }
}

/// Builds the sum over split-K partials.
pub fn lower_splitk_reduce(
    s: LowerSite,
    reduce_function: &'static str,
    split_k: u32,
    out_slot: u32,
    n: u32,
) -> (c: LoweredCommand)
    ensures
        c@ == splitk_reduce_command(s, reduce_function, split_k, out_slot, n),
{
    let nthreads: u32 = saturating_mul_u32(s.bucket_m, n);
    let bindings = vec![Binding::arena(out_slot, 0), Binding::Scratch { binding_index: 1 }];
    assert(bindings@ =~= splitk_reduce_command(
        s,
        reduce_function,
        split_k,
        out_slot,
        n,
    ).bindings);
    LoweredCommand {
        kernel: KernelId::SplitKReduceSum,
        library: "quantized_splitk_reduce",
        function: reduce_function,
        constants: (SplitKReduceSumConstants {
            bucket_m: BucketM(s.bucket_m),
            n: NDim(n),
            split_k: SplitK(split_k),
        }).into_values(),
        dispatch: s.grid_1d(nthreads),
        bindings,
        gemm_dims: None,
    }
}

// ---- MLP ----

/// `silu(gate) * up`, one thread per element.
pub open spec fn silu_mul_command(
    s: LowerSite,
    gate_slot: u32,
    up_slot: u32,
    out_slot: u32,
) -> CommandView {
    CommandView {
        kernel: KernelId::SiluMul,
        library: "silu_mul",
        function: silu_mul_name(dequant_dtype(s.params.metal_dtype)),
        constants: (SiluMulConstants {
            n: HiddenSize((s.bucket_m * s.intermediate_size()) as u32),
        }).values(),
        dispatch: s.spec_grid_1d(s.bucket_m * s.intermediate_size()),
        bindings: seq![
            Binding::arena(out_slot, 0),
            Binding::arena(gate_slot, 1),
            Binding::arena(up_slot, 2),
        ],
        gemm_dims: None,
    }
}

/// Lowers `SiluMul`.
pub fn lower_silu_mul(s: LowerSite, gate_slot: u32, up_slot: u32, out_slot: u32) -> (c:
    LoweredCommand)
    requires
        s.dtype_wired(),
        s.bucket_m * s.intermediate_size() <= u32::MAX,
    ensures
        c@ == silu_mul_command(s, gate_slot, up_slot, out_slot),
{
    let n: u32 = s.bucket_m * s.intermediate_size();
    let bindings = vec![
        Binding::arena(out_slot, 0),
        Binding::arena(gate_slot, 1),
        Binding::arena(up_slot, 2),
    ];
    assert(bindings@ =~= silu_mul_command(s, gate_slot, up_slot, out_slot).bindings);
    LoweredCommand {
        kernel: KernelId::SiluMul,
        library: "silu_mul",
        function: silu_mul_static_name(dequant_dtype_for(s.params.metal_dtype)),
        constants: (SiluMulConstants { n: HiddenSize(n) }).into_values(),
        dispatch: s.grid_1d(n),
        bindings,
        gemm_dims: None,
    }
}

/// Gate/up SwiGLU over packed dense weights. One token takes the matrix-vector
/// kernel, more take the tiled matrix kernel.
pub open spec fn fused_gate_up_silu_mul_command(
    s: LowerSite,
    in_slot: u32,
    out_slot: u32,
    layer: u32,
) -> CommandView {
    CommandView {
        kernel: KernelId::FusedGateUpSiluMul,
        library: "fused_gate_up_silu_mul",
        function: if s.bucket_m == 1 {
            specialized_symbol(
                "fused_gate_up_silu_mul_decode_f16_specialized",
                "fused_gate_up_silu_mul_decode_bf16_specialized",
                s.params.metal_dtype,
            )
        } else {
            specialized_symbol(
                "fused_gate_up_silu_mul_gemm_steel_f16_specialized",
                "fused_gate_up_silu_mul_gemm_steel_bf16_specialized",
                s.params.metal_dtype,
            )
        },
        constants: if s.bucket_m == 1 {
            (FusedGateUpSiluMulDecodeConstants {
                bucket_m: BucketM(s.bucket_m),
                intermediate_size: IntermediateSize(s.intermediate_size()),
                q_size: QSize(s.q_size()),
            }).values()
        } else {
            (FusedGateUpSiluMulPrefillConstants {
                bucket_m: BucketM(s.bucket_m),
                intermediate_size: IntermediateSize(s.intermediate_size()),
                q_size: QSize(s.q_size()),
            }).values()
        },
        dispatch: if s.bucket_m == 1 {
            DispatchShape {
                threadgroups: (
                    ceil_div(s.intermediate_size() as int, MLP_DECODE_BLOCK_M as int) as u32,
                    1,
                    1,
                ),
                threads_per_threadgroup: (256, 1, 1),
                m_scaling: None,
            }
        } else {
            DispatchShape {
                threadgroups: (
                    ceil_div(s.intermediate_size() as int, MLP_STEEL_TILE as int) as u32,
                    ceil_div(s.bucket_m as int, MLP_STEEL_TILE as int) as u32,
                    1,
                ),
                threads_per_threadgroup: (MLP_STEEL_THREADS, 1, 1),
                m_scaling: s.scaling(MScaleAxis::Y),
            }
        },
        bindings: seq![
            Binding::arena(out_slot, 0),
            Binding::arena(in_slot, 1),
            Binding::weight(
                WeightBundleKind::LinearLayer,
                WeightTensor::Weight,
                s.layer(layer),
                s.locator(0),
                2,
            ),
        ],
        gemm_dims: None,
    }
}

/// Lowers `FusedGateUpSiluMul`.
pub fn lower_fused_gate_up_silu_mul(
    s: LowerSite,
    in_slot: u32,
    out_slot: u32,
    layer: u32,
) -> (c: LoweredCommand)
    requires
        s.dtype_wired(),
        s.layer_fits(layer),
    ensures
        c@ == fused_gate_up_silu_mul_command(s, in_slot, out_slot, layer),
{
    let inter: u32 = s.intermediate_size();
    let dispatch = if s.bucket_m == 1 {
        DispatchShape {
            threadgroups: (div_ceil_u32(inter, MLP_DECODE_BLOCK_M), 1, 1),
            threads_per_threadgroup: (256, 1, 1),
            m_scaling: None,
        }
    } else {
        DispatchShape {
            threadgroups: (
                div_ceil_u32(inter, MLP_STEEL_TILE),
                div_ceil_u32(s.bucket_m, MLP_STEEL_TILE),
                1,
            ),
            threads_per_threadgroup: (MLP_STEEL_THREADS, 1, 1),
            m_scaling: s.scaling(MScaleAxis::Y),
        }
    };
    let function = if s.bucket_m == 1 {
        pick_specialized_symbol(
            "fused_gate_up_silu_mul_decode_f16_specialized",
            "fused_gate_up_silu_mul_decode_bf16_specialized",
            s.params.metal_dtype,
        )
    } else {
        pick_specialized_symbol(
            "fused_gate_up_silu_mul_gemm_steel_f16_specialized",
            "fused_gate_up_silu_mul_gemm_steel_bf16_specialized",
            s.params.metal_dtype,
        )
    };
    let constants = if s.bucket_m == 1 {
        (FusedGateUpSiluMulDecodeConstants {
            bucket_m: BucketM(s.bucket_m),
            intermediate_size: IntermediateSize(inter),
            q_size: QSize(s.q_size()),
        }).into_values()
    } else {
        (FusedGateUpSiluMulPrefillConstants {
            bucket_m: BucketM(s.bucket_m),
            intermediate_size: IntermediateSize(inter),
            q_size: QSize(s.q_size()),
        }).into_values()
    };
    let bindings = vec![
        Binding::arena(out_slot, 0),
        Binding::arena(in_slot, 1),
        Binding::weight(
            WeightBundleKind::LinearLayer,
            WeightTensor::Weight,
            s.layer(layer),
            s.locator(0),
            2,
        ),
    ];
    assert(bindings@ =~= fused_gate_up_silu_mul_command(s, in_slot, out_slot, layer).bindings);
    LoweredCommand {
        kernel: KernelId::FusedGateUpSiluMul,
        library: "fused_gate_up_silu_mul",
        function,
        constants,
        dispatch,
        bindings,
        gemm_dims: None,
    }
}

/// Gather from a quantized embedding table: two packed values per thread on
/// the x axis, one token per row on the y axis.
pub open spec fn affine_embed_command(
    s: LowerSite,
    out_slot: u32,
    group_size: u32,
) -> CommandView {
    CommandView {
        kernel: KernelId::AffineEmbed,
        library: "quantized_dequantize",
        function: affine_embed_name(dequant_dtype(s.params.metal_dtype), group_size),
        constants: (AffineEmbedConstants { hidden_size: HiddenSize(s.q_size()) }).values(),
        dispatch: DispatchShape {
            threadgroups: (
                ceil_div((s.q_size() / 2) as int, THREADS_PER_GROUP as int) as u32,
                s.bucket_m,
                1,
            ),
            threads_per_threadgroup: (THREADS_PER_GROUP, 1, 1),
            m_scaling: s.scaling(MScaleAxis::Y),
        },
        bindings: seq![
            Binding::weight(
                WeightBundleKind::AffineQuantEmbedding,
                WeightTensor::Weight,
                LayerId(0),
                s.locator(0),
                0,
            ),
            Binding::weight(
                WeightBundleKind::AffineQuantEmbedding,
                WeightTensor::AffineScales,
                LayerId(0),
                s.locator(0),
                1,
            ),
            Binding::weight(
                WeightBundleKind::AffineQuantEmbedding,
                WeightTensor::AffineBiases,
                LayerId(0),
                s.locator(0),
                2,
            ),
            Binding::runtime(RuntimeBindingKind::InputIds, 3),
            Binding::arena(out_slot, 4),
        ],
        gemm_dims: None,
    }
}

/// Lowers `AffineEmbed`. Kernels exist for four bits and group sizes 32, 64
/// and 128.
pub fn lower_affine_embed(s: LowerSite, out_slot: u32, group_size: u32, bits: u32) -> (c:
    LoweredCommand)
    requires
        s.dtype_wired(),
        bits == 4,
        embed_group_size(group_size),
    ensures
        c@ == affine_embed_command(s, out_slot, group_size),
{
    let hidden_size: u32 = s.q_size();
    let bytes_per_row: u32 = hidden_size / 2;
    let groups_x: u32 = div_ceil_u32(bytes_per_row, THREADS_PER_GROUP);
    let bindings = vec![
        Binding::weight(
            WeightBundleKind::AffineQuantEmbedding,
            WeightTensor::Weight,
            LayerId(0),
            s.locator(0),
            0,
        ),
        Binding::weight(
            WeightBundleKind::AffineQuantEmbedding,
            WeightTensor::AffineScales,
            LayerId(0),
            s.locator(0),
            1,
        ),
        Binding::weight(
            WeightBundleKind::AffineQuantEmbedding,
            WeightTensor::AffineBiases,
            LayerId(0),
            s.locator(0),
            2,
        ),
        Binding::runtime(RuntimeBindingKind::InputIds, 3),
        Binding::arena(out_slot, 4),
    ];
    assert(bindings@ =~= affine_embed_command(s, out_slot, group_size).bindings);
    LoweredCommand {
        kernel: KernelId::AffineEmbed,
        library: "quantized_dequantize",
        function: affine_embed_kernel_static_name(
            dequant_dtype_for(s.params.metal_dtype),
            scale_dtype_for(),
            group_size,
        ),
        constants: (AffineEmbedConstants { hidden_size: HiddenSize(hidden_size) }).into_values(),
        dispatch: DispatchShape {
            threadgroups: (groups_x, s.bucket_m, 1),
            threads_per_threadgroup: (THREADS_PER_GROUP, 1, 1),
            m_scaling: s.scaling(MScaleAxis::Y),
        },
        bindings,
        gemm_dims: None,
    }
}

// ---- Rotary embedding and cache writes ----

/// Rotary embedding and KV-cache append: one threadgroup per token and head.
pub open spec fn rope_append_command(
    s: LowerSite,
    q_out_slot: u32,
    k_out_slot: u32,
    v_out_slot: u32,
    layer: u32,
) -> CommandView {
    CommandView {
        kernel: KernelId::RopeAppend,
        library: "rope",
        function: specialized_symbol(
            "rope_append_f16_specialized",
            "rope_append_bf16_specialized",
            s.params.metal_dtype,
        ),
        constants: (RopeAppendConstants {
            head_dim: HeadDim(s.params.head_dim),
            num_q_heads: NumQHeads(s.params.num_q_heads),
            num_kv_heads: NumKvHeads(s.params.num_kv_heads),
            rot_dim: RotDim(s.params.rot_dim),
            block_size: BlockSize(s.params.block_size),
            blocks_per_chunk: BlocksPerChunk(s.params.blocks_per_chunk),
        }).values(),
        dispatch: DispatchShape {
            threadgroups: (s.bucket_m, s.params.num_q_heads, 1),
            threads_per_threadgroup: (s.params.head_dim, 1, 1),
            m_scaling: s.scaling(MScaleAxis::X),
        },
        bindings: (RopeAppendBindingSet {
            q_out: ArenaSlotIdx(q_out_slot),
            k_out: ArenaSlotIdx(k_out_slot),
            v_out: ArenaSlotIdx(v_out_slot),
            cos_sin_locator: s.locator(0),
            layer: s.layer(layer),
        }).bindings(),
        gemm_dims: None,
    }
}

/// Lowers `RopeAppend`.
pub fn lower_rope_append(
    s: LowerSite,
    q_out_slot: u32,
    k_out_slot: u32,
    v_out_slot: u32,
    layer: u32,
) -> (c: LoweredCommand)
    requires
        s.dtype_wired(),
        s.layer_fits(layer),
    ensures
        c@ == rope_append_command(s, q_out_slot, k_out_slot, v_out_slot, layer),
{
    LoweredCommand {
        kernel: KernelId::RopeAppend,
        library: "rope",
        function: pick_specialized_symbol(
            "rope_append_f16_specialized",
            "rope_append_bf16_specialized",
            s.params.metal_dtype,
        ),
        constants: (RopeAppendConstants {
            head_dim: HeadDim(s.params.head_dim),
            num_q_heads: NumQHeads(s.params.num_q_heads),
            num_kv_heads: NumKvHeads(s.params.num_kv_heads),
            rot_dim: RotDim(s.params.rot_dim),
            block_size: BlockSize(s.params.block_size),
            blocks_per_chunk: BlocksPerChunk(s.params.blocks_per_chunk),
        }).into_values(),
        dispatch: DispatchShape {
            threadgroups: (s.bucket_m, s.params.num_q_heads, 1),
            threads_per_threadgroup: (s.params.head_dim, 1, 1),
            m_scaling: s.scaling(MScaleAxis::X),
        },
        bindings: (RopeAppendBindingSet {
            q_out: ArenaSlotIdx(q_out_slot),
            k_out: ArenaSlotIdx(k_out_slot),
            v_out: ArenaSlotIdx(v_out_slot),
            cos_sin_locator: s.locator(0),
            layer: s.layer(layer),
        }).into_bindings(),
        gemm_dims: None,
    }
}

/// QKV projection, rotary embedding and cache write: one threadgroup per token
/// and head of any kind.
pub open spec fn fused_qkv_rope_cache_command(
    s: LowerSite,
    in_slot: u32,
    out_slot: u32,
    layer: u32,
) -> CommandView {
    CommandView {
        kernel: KernelId::FusedQkvRopeCache,
        library: "fused_qkv_rope_cache",
        function: specialized_symbol(
            "fused_qkv_rope_cache_f16_specialized",
            "fused_qkv_rope_cache_bf16_specialized",
            s.params.metal_dtype,
        ),
        constants: (FusedQkvRopeCacheConstants {
            q_size: QSize(s.q_size()),
            num_q_heads: NumQHeads(s.params.num_q_heads),
            num_kv_heads: NumKvHeads(s.params.num_kv_heads),
            head_dim: HeadDim(s.params.head_dim),
            rot_dim: RotDim(s.params.rot_dim),
            block_size: BlockSize(s.params.block_size),
            bucket_m: BucketM(s.bucket_m),
            blocks_per_chunk: BlocksPerChunk(s.params.blocks_per_chunk),
        }).values(),
        dispatch: DispatchShape {
            threadgroups: (s.bucket_m, s.qkv_heads() as u32, 1),
            threads_per_threadgroup: (s.params.head_dim, 1, 1),
            m_scaling: s.scaling(MScaleAxis::X),
        },
        bindings: (FusedQkvRopeCacheBindingSet {
            q_out: ArenaSlotIdx(out_slot),
            input: ArenaSlotIdx(in_slot),
            qkv_locator: s.locator(0),
            cos_sin_locator: s.locator(1),
            layer: s.layer(layer),
        }).bindings(),
        gemm_dims: None,
    }
}

/// Lowers `FusedQkvRopeCache`. The kernel knows neither biases nor interleaved
/// rotation.
pub fn lower_fused_qkv_rope_cache(
    s: LowerSite,
    in_slot: u32,
    out_slot: u32,
    layer: u32,
    biased: bool,
    interleaved: bool,
) -> (c: LoweredCommand)
    requires
        s.dtype_wired(),
        s.layer_fits(layer),
        s.qkv_heads() <= u32::MAX,
        !biased,
        !interleaved,
    ensures
        c@ == fused_qkv_rope_cache_command(s, in_slot, out_slot, layer),
{
    let num_heads_total: u32 = s.params.num_q_heads + 2 * s.params.num_kv_heads;
    LoweredCommand {
        kernel: KernelId::FusedQkvRopeCache,
        library: "fused_qkv_rope_cache",
        function: pick_specialized_symbol(
            "fused_qkv_rope_cache_f16_specialized",
            "fused_qkv_rope_cache_bf16_specialized",
            s.params.metal_dtype,
        ),
        constants: (FusedQkvRopeCacheConstants {
            q_size: QSize(s.q_size()),
            num_q_heads: NumQHeads(s.params.num_q_heads),
            num_kv_heads: NumKvHeads(s.params.num_kv_heads),
            head_dim: HeadDim(s.params.head_dim),
            rot_dim: RotDim(s.params.rot_dim),
            block_size: BlockSize(s.params.block_size),
            bucket_m: BucketM(s.bucket_m),
            blocks_per_chunk: BlocksPerChunk(s.params.blocks_per_chunk),
        }).into_values(),
        dispatch: DispatchShape {
            threadgroups: (s.bucket_m, num_heads_total, 1),
            threads_per_threadgroup: (s.params.head_dim, 1, 1),
            m_scaling: s.scaling(MScaleAxis::X),
        },
        bindings: (FusedQkvRopeCacheBindingSet {
            q_out: ArenaSlotIdx(out_slot),
            input: ArenaSlotIdx(in_slot),
            qkv_locator: s.locator(0),
            cos_sin_locator: s.locator(1),
            layer: s.layer(layer),
        }).into_bindings(),
        gemm_dims: None,
    }
}

// ---- Synthesized kernels ----

/// Pushes the three tensors of an affine-quantized linear layer.
fn push_affine_triple(v: &mut Vec<Binding>, layer: LayerId, locator: WeightLocator, first: u8)
    requires
        first <= 250,
    ensures
        final(v)@ == old(v)@ + affine_triple(layer, locator, first as int),
{
    v.push(
        Binding::weight(WeightBundleKind::LinearLayer, WeightTensor::Weight, layer, locator, first),
    );
    v.push(
        Binding::weight(
            WeightBundleKind::LinearLayer,
            WeightTensor::AffineScales,
            layer,
            locator,
            first + 1,
        ),
    );
    v.push(
        Binding::weight(
            WeightBundleKind::LinearLayer,
            WeightTensor::AffineBiases,
            layer,
            locator,
            first + 2,
        ),
    );
}

/// Bindings of the synthesized pre-attention kernel: the query output, the
/// residual and its delta, the norm gain, the query, key and value
/// projections, the rotary table, positions, slots and caches, and the three
/// projection biases where the model has them.
pub open spec fn synth_pre_attn_binding_seq(
    s: LowerSite,
    residual_slot: u32,
    delta_slot: u32,
    q_out_slot: u32,
    layer: u32,
    has_linear_bias: bool,
) -> Seq<Binding> {
    let l = s.layer(layer);
    let head = seq![
        Binding::arena(q_out_slot, 0),
        Binding::arena(residual_slot, 1),
        Binding::arena(delta_slot, 2),
        Binding::weight(WeightBundleKind::RmsNorm, WeightTensor::Weight, l, s.locator(0), 3),
    ];
    let projections = affine_triple(l, s.locator(0), 4) + affine_triple(l, s.locator(1), 7)
        + affine_triple(l, s.locator(2), 10);
    let tail = seq![
        Binding::weight(WeightBundleKind::CosSin, WeightTensor::Weight, l, s.locator(0), 13),
        Binding::runtime(RuntimeBindingKind::Positions, 14),
        Binding::runtime(RuntimeBindingKind::SlotMapping, 15),
        Binding::runtime(RuntimeBindingKind::KvCacheK { layer: l }, 16),
        Binding::runtime(RuntimeBindingKind::KvCacheV { layer: l }, 17),
    ];
    let biases = seq![
        Binding::weight(
            WeightBundleKind::LinearLayer,
            WeightTensor::AffineLinearBias,
            l,
            s.locator(0),
            18,
        ),
        Binding::weight(
            WeightBundleKind::LinearLayer,
            WeightTensor::AffineLinearBias,
            l,
            s.locator(1),
            19,
        ),
        Binding::weight(
            WeightBundleKind::LinearLayer,
            WeightTensor::AffineLinearBias,
            l,
            s.locator(2),
            20,
        ),
    ];
    if has_linear_bias {
        head + projections + tail + biases
    } else {
        head + projections + tail
    }
}

fn synth_pre_attn_bindings(
    s: LowerSite,
    residual_slot: u32,
    delta_slot: u32,
    q_out_slot: u32,
    layer: u32,
    has_linear_bias: bool,
) -> (v: Vec<Binding>)
    requires
        s.layer_fits(layer),
    ensures
        v@ == synth_pre_attn_binding_seq(
            s,
            residual_slot,
            delta_slot,
            q_out_slot,
            layer,
            has_linear_bias,
        ),
{
    let l = s.layer(layer);
    let mut v = vec![
        Binding::arena(q_out_slot, 0),
        Binding::arena(residual_slot, 1),
        Binding::arena(delta_slot, 2),
        Binding::weight(WeightBundleKind::RmsNorm, WeightTensor::Weight, l, s.locator(0), 3),
    ];
    push_affine_triple(&mut v, l, s.locator(0), 4);
    push_affine_triple(&mut v, l, s.locator(1), 7);
    push_affine_triple(&mut v, l, s.locator(2), 10);
    v.push(
        Binding::weight(WeightBundleKind::CosSin, WeightTensor::Weight, l, s.locator(0), 13),
    );
    v.push(Binding::runtime(RuntimeBindingKind::Positions, 14));
    v.push(Binding::runtime(RuntimeBindingKind::SlotMapping, 15));
    v.push(Binding::runtime(RuntimeBindingKind::KvCacheK { layer: l }, 16));
    v.push(Binding::runtime(RuntimeBindingKind::KvCacheV { layer: l }, 17));
    if has_linear_bias {
        v.push(
            Binding::weight(
                WeightBundleKind::LinearLayer,
                WeightTensor::AffineLinearBias,
                l,
                s.locator(0),
                18,
            ),
        );
        v.push(
            Binding::weight(
                WeightBundleKind::LinearLayer,
                WeightTensor::AffineLinearBias,
                l,
                s.locator(1),
                19,
            ),
        );
        v.push(
            Binding::weight(
                WeightBundleKind::LinearLayer,
                WeightTensor::AffineLinearBias,
                l,
                s.locator(2),
                20,
            ),
        );
    }
    assert(v@ =~= synth_pre_attn_binding_seq(
        s,
        residual_slot,
        delta_slot,
        q_out_slot,
        layer,
        has_linear_bias,
    ));
    v
}

/// Synthesized pre-attention kernel: one threadgroup per token and head of any
/// kind. Library and symbol are the synthesized symbol.
pub open spec fn synth_pre_attn_command(
    s: LowerSite,
    residual_slot: u32,
    delta_slot: u32,
    q_out_slot: u32,
    layer: u32,
    symbol: &'static str,
    has_linear_bias: bool,
) -> CommandView {
    CommandView {
        kernel: KernelId::SynthPreAttn,
        library: symbol,
        function: symbol,
        constants: (SynthMegakernelConstants { bucket_m: BucketM(s.bucket_m) }).values(),
        dispatch: DispatchShape {
            threadgroups: (s.bucket_m, s.qkv_heads() as u32, 1),
            threads_per_threadgroup: ((32 * s.params.head_dim / 4) as u32, 1, 1),
            m_scaling: s.scaling(MScaleAxis::X),
        },
        bindings: synth_pre_attn_binding_seq(
            s,
            residual_slot,
            delta_slot,
            q_out_slot,
            layer,
            has_linear_bias,
        ),
        gemm_dims: None,
    }
}

/// Lowers `SynthPreAttn`, which exists for four bits only.
pub fn lower_synth_pre_attn(
    s: LowerSite,
    residual_slot: u32,
    delta_slot: u32,
    q_out_slot: u32,
    layer: u32,
    bits: u32,
    symbol: &'static str,
    has_linear_bias: bool,
) -> (c: LoweredCommand)
    requires
        s.layer_fits(layer),
        s.qkv_heads() <= u32::MAX,
        32 * s.params.head_dim <= u32::MAX,
        bits == 4,
    ensures
        c@ == synth_pre_attn_command(
            s,
            residual_slot,
            delta_slot,
            q_out_slot,
            layer,
            symbol,
            has_linear_bias,
        ),
{
    let num_heads_total: u32 = s.params.num_q_heads + 2 * s.params.num_kv_heads;
    let threads_per_tg: u32 = 32 * s.params.head_dim / 4;
    LoweredCommand {
        kernel: KernelId::SynthPreAttn,
        library: symbol,
        function: symbol,
        constants: (SynthMegakernelConstants { bucket_m: BucketM(s.bucket_m) }).into_values(),
        dispatch: DispatchShape {
            threadgroups: (s.bucket_m, num_heads_total, 1),
            threads_per_threadgroup: (threads_per_tg, 1, 1),
            m_scaling: s.scaling(MScaleAxis::X),
        },
        bindings: synth_pre_attn_bindings(
            s,
            residual_slot,
            delta_slot,
            q_out_slot,
            layer,
            has_linear_bias,
        ),
        gemm_dims: None,
    }
}

/// Synthesized kernel from the residual add to the SiLU product: one
/// threadgroup per token and tile of `head_dim` intermediate columns.
pub open spec fn synth_mlp_pre_down_command(
    s: LowerSite,
    residual_slot: u32,
    delta_slot: u32,
    silu_mul_out_slot: u32,
    layer: u32,
    symbol: &'static str,
) -> CommandView {
    CommandView {
        kernel: KernelId::SynthMlpPreDown,
        library: symbol,
        function: symbol,
        constants: (SynthMegakernelConstants { bucket_m: BucketM(s.bucket_m) }).values(),
        dispatch: DispatchShape {
            threadgroups: (
                s.bucket_m,
                (s.intermediate_size() as int / s.params.head_dim as int) as u32,
                1,
            ),
            threads_per_threadgroup: ((32 * s.params.head_dim / 4) as u32, 1, 1),
            m_scaling: s.scaling(MScaleAxis::X),
        },
        bindings: seq![
            Binding::arena(silu_mul_out_slot, 0),
            Binding::arena(residual_slot, 1),
            Binding::arena(delta_slot, 2),
            Binding::weight(
                WeightBundleKind::RmsNorm,
                WeightTensor::Weight,
                s.layer(layer),
                s.locator(0),
                3,
            ),
        ] + affine_triple(s.layer(layer), s.locator(0), 4) + affine_triple(
            s.layer(layer),
            s.locator(1),
            7,
        ),
        gemm_dims: None,
    }
}

/// Lowers `SynthMlpPreDown`, which exists for four bits and an intermediate
/// size that is a multiple of the head width.
pub fn lower_synth_mlp_pre_down(
    s: LowerSite,
    residual_slot: u32,
    delta_slot: u32,
    silu_mul_out_slot: u32,
    layer: u32,
    bits: u32,
    symbol: &'static str,
) -> (c: LoweredCommand)
    requires
        s.layer_fits(layer),
        bits == 4,
        s.params.head_dim > 0,
        s.intermediate_size() as int % s.params.head_dim as int == 0,
        32 * s.params.head_dim <= u32::MAX,
    ensures
        c@ == synth_mlp_pre_down_command(
            s,
            residual_slot,
            delta_slot,
            silu_mul_out_slot,
            layer,
            symbol,
        ),
{
    let tile_n: u32 = s.params.head_dim;
    let num_tiles: u32 = s.intermediate_size() / tile_n;
    let threads_per_tg: u32 = 32 * tile_n / 4;
    let l = s.layer(layer);
    let mut bindings = vec![
        Binding::arena(silu_mul_out_slot, 0),
        Binding::arena(residual_slot, 1),
        Binding::arena(delta_slot, 2),
        Binding::weight(WeightBundleKind::RmsNorm, WeightTensor::Weight, l, s.locator(0), 3),
    ];
    push_affine_triple(&mut bindings, l, s.locator(0), 4);
    push_affine_triple(&mut bindings, l, s.locator(1), 7);
    assert(bindings@ =~= synth_mlp_pre_down_command(
        s,
        residual_slot,
        delta_slot,
        silu_mul_out_slot,
        layer,
        symbol,
    ).bindings);
    LoweredCommand {
        kernel: KernelId::SynthMlpPreDown,
        library: symbol,
        function: symbol,
        constants: (SynthMegakernelConstants { bucket_m: BucketM(s.bucket_m) }).into_values(),
        dispatch: DispatchShape {
            threadgroups: (s.bucket_m, num_tiles, 1),
            threads_per_threadgroup: (threads_per_tg, 1, 1),
            m_scaling: s.scaling(MScaleAxis::X),
        },
        bindings,
        gemm_dims: None,
    }
}

/// Synthesized gate/up product with SiLU, on tiles of 32 by 32.
pub open spec fn synth_gate_up_silu_mul_command(
    s: LowerSite,
    x_norm_slot: u32,
    out_slot: u32,
    layer: u32,
    symbol: &'static str,
) -> CommandView {
    CommandView {
        kernel: KernelId::SynthGateUpSiluMul,
        library: symbol,
        function: symbol,
        constants: (SynthMegakernelConstants { bucket_m: BucketM(s.bucket_m) }).values(),
        dispatch: DispatchShape {
            threadgroups: (
                ceil_div(s.intermediate_size() as int, 32) as u32,
                ceil_div(s.bucket_m as int, 32) as u32,
                1,
            ),
            threads_per_threadgroup: (128, 1, 1),
            m_scaling: s.scaling(MScaleAxis::Y),
        },
        bindings: seq![
            Binding::arena(out_slot, 0),
            Binding::arena(x_norm_slot, 1),
        ] + affine_triple(s.layer(layer), s.locator(0), 2) + affine_triple(
            s.layer(layer),
            s.locator(1),
            5,
        ),
        gemm_dims: None,
    }
}

/// Lowers `SynthGateUpSiluMul`.
pub fn lower_synth_gate_up_silu_mul(
    s: LowerSite,
    x_norm_slot: u32,
    out_slot: u32,
    layer: u32,
    symbol: &'static str,
) -> (c: LoweredCommand)
    requires
        s.layer_fits(layer),
    ensures
        c@ == synth_gate_up_silu_mul_command(s, x_norm_slot, out_slot, layer, symbol),
{
    let l = s.layer(layer);
    let mut bindings = vec![Binding::arena(out_slot, 0), Binding::arena(x_norm_slot, 1)];
    push_affine_triple(&mut bindings, l, s.locator(0), 2);
    push_affine_triple(&mut bindings, l, s.locator(1), 5);
    assert(bindings@ =~= synth_gate_up_silu_mul_command(
        s,
        x_norm_slot,
        out_slot,
        layer,
        symbol,
    ).bindings);
    LoweredCommand {
        kernel: KernelId::SynthGateUpSiluMul,
        library: symbol,
        function: symbol,
        constants: (SynthMegakernelConstants { bucket_m: BucketM(s.bucket_m) }).into_values(),
        dispatch: DispatchShape {
            threadgroups: (
                div_ceil_u32(s.intermediate_size(), 32),
                div_ceil_u32(s.bucket_m, 32),
                1,
            ),
            threads_per_threadgroup: (128, 1, 1),
            m_scaling: s.scaling(MScaleAxis::Y),
        },
        bindings,
        gemm_dims: None,
    }
}

// ---- Attention ----

/// Decode attention: one threadgroup per sequence and query head.
pub open spec fn attention_via_cache_command(
    s: LowerSite,
    q_slot: u32,
    out_slot: u32,
    layer: u32,
) -> CommandView {
    CommandView {
        kernel: KernelId::AttentionViaCache,
        library: "attention",
        function: specialized_symbol(
            "attention_via_cache_v2_f16_specialized",
            "attention_via_cache_v2_bf16_specialized",
            s.params.metal_dtype,
        ),
        constants: (AttentionViaCacheConstants {
            head_dim: HeadDim(s.params.head_dim),
            num_q_heads: NumQHeads(s.params.num_q_heads),
            num_kv_heads: NumKvHeads(s.params.num_kv_heads),
            attn_scale: AttnScale(s.params.attn_scale_bits),
            block_size: BlockSize(s.params.block_size),
            max_blocks: MaxBlocksPerSeq(s.params.max_blocks_per_seq),
            blocks_per_chunk: BlocksPerChunk(s.params.blocks_per_chunk),
        }).values(),
        dispatch: DispatchShape {
            threadgroups: (s.bucket_m, s.params.num_q_heads, 1),
            threads_per_threadgroup: (1024, 1, 1),
            m_scaling: s.scaling(MScaleAxis::X),
        },
        bindings: (AttentionViaCacheBindingSet {
            output: ArenaSlotIdx(out_slot),
            q: ArenaSlotIdx(q_slot),
            kv_layer: s.layer(layer),
        }).bindings(),
        gemm_dims: None,
    }
}

/// Lowers `AttentionViaCache`.
pub fn lower_attention_via_cache(
    s: LowerSite,
    q_slot: u32,
    out_slot: u32,
    layer: u32,
) -> (c: LoweredCommand)
    requires
        s.dtype_wired(),
        s.layer_fits(layer),
    ensures
        c@ == attention_via_cache_command(s, q_slot, out_slot, layer),
{
    LoweredCommand {
        kernel: KernelId::AttentionViaCache,
        library: "attention",
        function: pick_specialized_symbol(
            "attention_via_cache_v2_f16_specialized",
            "attention_via_cache_v2_bf16_specialized",
            s.params.metal_dtype,
        ),
        constants: (AttentionViaCacheConstants {
            head_dim: HeadDim(s.params.head_dim),
            num_q_heads: NumQHeads(s.params.num_q_heads),
            num_kv_heads: NumKvHeads(s.params.num_kv_heads),
            attn_scale: AttnScale(s.params.attn_scale_bits),
            block_size: BlockSize(s.params.block_size),
            max_blocks: MaxBlocksPerSeq(s.params.max_blocks_per_seq),
            blocks_per_chunk: BlocksPerChunk(s.params.blocks_per_chunk),
        }).into_values(),
        dispatch: DispatchShape {
            threadgroups: (s.bucket_m, s.params.num_q_heads, 1),
            threads_per_threadgroup: (1024, 1, 1),
            m_scaling: s.scaling(MScaleAxis::X),
        },
        bindings: (AttentionViaCacheBindingSet {
            output: ArenaSlotIdx(out_slot),
            q: ArenaSlotIdx(q_slot),
            kv_layer: s.layer(layer),
        }).into_bindings(),
        gemm_dims: None,
    }
}

/// The prefill attention kernel for a variant and an activation type.
pub open spec fn prefill_attention_identity(steel: bool, dtype: MetalDtype) -> KernelIdentity {
    if steel {
        if dtype is Bf16 {
            AttentionSteelPagedBf16::identity()
        } else {
            AttentionSteelPagedF16::identity()
        }
    } else {
        if dtype is Bf16 {
            AttentionSdpaPagedBf16::identity()
        } else {
            AttentionSdpaPagedF16::identity()
        }
    }
}

/// Prefill attention. The steel kernel takes blocks of query rows and reads
/// the debug mode; the vector kernel takes one query row per threadgroup.
pub open spec fn attention_prefill_paged_command(
    s: LowerSite,
    q_slot: u32,
    out_slot: u32,
    layer: u32,
) -> CommandView {
    let id = prefill_attention_identity(s.steel_attention, s.params.metal_dtype);
    CommandView {
        kernel: id.kernel,
        library: id.library,
        function: id.function,
        constants: (AttentionPrefillPagedConstants {
            head_dim: HeadDim(s.params.head_dim),
            num_q_heads: NumQHeads(s.params.num_q_heads),
            num_kv_heads: NumKvHeads(s.params.num_kv_heads),
            attn_scale: AttnScale(s.params.attn_scale_bits),
            block_size: BlockSize(s.params.block_size),
            max_blocks: MaxBlocksPerSeq(s.params.max_blocks_per_seq),
            blocks_per_chunk: BlocksPerChunk(s.params.blocks_per_chunk),
            debug_mode: if s.steel_attention {
                Some(AttnDebugMode(0))
            } else {
                None
            },
        }).values(),
        dispatch: if s.steel_attention {
            DispatchShape {
                threadgroups: (
                    ceil_div(s.bucket_m as int, BQ_STEEL as int) as u32,
                    s.params.num_q_heads,
                    1,
                ),
                threads_per_threadgroup: (128, 1, 1),
                m_scaling: s.scaling(MScaleAxis::X),
            }
        } else {
            DispatchShape {
                threadgroups: (s.params.num_q_heads, s.bucket_m, 1),
                threads_per_threadgroup: (1024, 1, 1),
                m_scaling: s.scaling(MScaleAxis::Y),
            }
        },
        bindings: (AttentionPrefillPagedBindingSet {
            output: ArenaSlotIdx(out_slot),
            q: ArenaSlotIdx(q_slot),
            kv_layer: s.layer(layer),
        }).bindings(),
        gemm_dims: None,
    }
}

/// Lowers `AttentionPrefillPaged`.
pub fn lower_attention_prefill_paged(
    s: LowerSite,
    q_slot: u32,
    out_slot: u32,
    layer: u32,
) -> (c: LoweredCommand)
    requires
        s.layer_fits(layer),
    ensures
        c@ == attention_prefill_paged_command(s, q_slot, out_slot, layer),
{
    let constants = AttentionPrefillPagedConstants {
        head_dim: HeadDim(s.params.head_dim),
        num_q_heads: NumQHeads(s.params.num_q_heads),
        num_kv_heads: NumKvHeads(s.params.num_kv_heads),
        attn_scale: AttnScale(s.params.attn_scale_bits),
        block_size: BlockSize(s.params.block_size),
        max_blocks: MaxBlocksPerSeq(s.params.max_blocks_per_seq),
        blocks_per_chunk: BlocksPerChunk(s.params.blocks_per_chunk),
        debug_mode: if s.steel_attention {
            Some(AttnDebugMode(0))
        } else {
            None
        },
    };
    let bindings = AttentionPrefillPagedBindingSet {
        output: ArenaSlotIdx(out_slot),
        q: ArenaSlotIdx(q_slot),
        kv_layer: s.layer(layer),
    };
    let dispatch = if s.steel_attention {
        DispatchShape {
            threadgroups: (div_ceil_u32(s.bucket_m, BQ_STEEL), s.params.num_q_heads, 1),
            threads_per_threadgroup: (128, 1, 1),
            m_scaling: s.scaling(MScaleAxis::X),
        }
    } else {
        DispatchShape {
            threadgroups: (s.params.num_q_heads, s.bucket_m, 1),
            threads_per_threadgroup: (1024, 1, 1),
            m_scaling: s.scaling(MScaleAxis::Y),
        }
    };
    match (s.steel_attention, s.params.metal_dtype) {
        (true, MetalDtype::Bf16) => LoweredCommand::for_kernel::<AttentionSteelPagedBf16>(
            constants,
            bindings,
            dispatch,
        ),
        (true, _) => LoweredCommand::for_kernel::<AttentionSteelPagedF16>(
            constants,
            bindings,
            dispatch,
        ),
        (false, MetalDtype::Bf16) => LoweredCommand::for_kernel::<AttentionSdpaPagedBf16>(
            constants,
            bindings,
            dispatch,
        ),
        (false, _) => LoweredCommand::for_kernel::<AttentionSdpaPagedF16>(
            constants,
            bindings,
            dispatch,
        ),
    }
}

// ---- Elementwise ----

/// Residual add, one thread per element.
pub open spec fn add_command(s: LowerSite, delta_slot: u32, residual_slot: u32) -> CommandView {
    CommandView {
        kernel: KernelId::Add,
        library: "elementwise",
        function: specialized_symbol(
            "residual_add_f16_specialized",
            "residual_add_bf16_specialized",
            s.params.metal_dtype,
        ),
        constants: Seq::empty(),
        dispatch: s.spec_grid_1d(s.bucket_m * s.q_size()),
        bindings: seq![Binding::arena(residual_slot, 0), Binding::arena(delta_slot, 1)],
        gemm_dims: None,
    }
}

/// Lowers `Add`.
pub fn lower_add(s: LowerSite, delta_slot: u32, residual_slot: u32) -> (c: LoweredCommand)
    requires
        s.dtype_wired(),
        s.bucket_m * s.q_size() <= u32::MAX,
    ensures
        c@ == add_command(s, delta_slot, residual_slot),
{
    let bindings = vec![Binding::arena(residual_slot, 0), Binding::arena(delta_slot, 1)];
    assert(bindings@ =~= add_command(s, delta_slot, residual_slot).bindings);
    LoweredCommand {
        kernel: KernelId::Add,
        library: "elementwise",
        function: pick_specialized_symbol(
            "residual_add_f16_specialized",
            "residual_add_bf16_specialized",
            s.params.metal_dtype,
        ),
        constants: Vec::new(),
        dispatch: s.grid_1d(s.bucket_m * s.q_size()),
        bindings,
        gemm_dims: None,
    }
}

/// Product with a scalar, one thread per element. The scalar is part of the
/// specialized pipeline, not a binding.
pub open spec fn scalar_mul_command(s: LowerSite, in_slot: u32, out_slot: u32) -> CommandView {
    CommandView {
        kernel: KernelId::ScalarMul,
        library: "elementwise",
        function: specialized_symbol(
            "scalar_mul_f16_specialized",
            "scalar_mul_bf16_specialized",
            s.params.metal_dtype,
        ),
        constants: Seq::empty(),
        dispatch: s.spec_grid_1d(s.bucket_m * s.q_size()),
        bindings: seq![Binding::arena(out_slot, 0), Binding::arena(in_slot, 1)],
        gemm_dims: None,
    }
}

/// Lowers `ScalarMul`.
pub fn lower_scalar_mul(s: LowerSite, in_slot: u32, out_slot: u32) -> (c: LoweredCommand)
    requires
        s.dtype_wired(),
        s.bucket_m * s.q_size() <= u32::MAX,
    ensures
        c@ == scalar_mul_command(s, in_slot, out_slot),
{
    let bindings = vec![Binding::arena(out_slot, 0), Binding::arena(in_slot, 1)];
    assert(bindings@ =~= scalar_mul_command(s, in_slot, out_slot).bindings);
    LoweredCommand {
        kernel: KernelId::ScalarMul,
        library: "elementwise",
        function: pick_specialized_symbol(
            "scalar_mul_f16_specialized",
            "scalar_mul_bf16_specialized",
            s.params.metal_dtype,
        ),
        constants: Vec::new(),
        dispatch: s.grid_1d(s.bucket_m * s.q_size()),
        bindings,
        gemm_dims: None,
    }
}

/// Bias broadcast over rows of width `n`, one thread per element.
pub open spec fn bias_add_command(
    s: LowerSite,
    in_slot: u32,
    out_slot: u32,
    layer: u32,
    n: u32,
    is_affine: bool,
) -> CommandView {
    CommandView {
        kernel: KernelId::BiasAdd,
        library: "elementwise",
        function: specialized_symbol(
            "bias_add_f16_specialized",
            "bias_add_bf16_specialized",
            s.params.metal_dtype,
        ),
        constants: seq![
            ConstantValue::Uint { slot: ConstSlot(0), value: n },
        ],
        dispatch: s.spec_grid_1d(s.bucket_m * n),
        bindings: seq![
            Binding::arena(in_slot, 0),
            Binding::weight(
                WeightBundleKind::LinearLayer,
                if is_affine {
                    WeightTensor::AffineLinearBias
                } else {
                    WeightTensor::Bias
                },
                s.layer(layer),
                s.locator(0),
                1,
            ),
            Binding::arena(out_slot, 2),
        ],
        gemm_dims: None,
    }
}

/// Lowers `MetalBiasAdd`.
pub fn lower_bias_add(
    s: LowerSite,
    in_slot: u32,
    out_slot: u32,
    layer: u32,
    n: u32,
    is_affine: bool,
) -> (c: LoweredCommand)
    requires
        s.dtype_wired(),
        s.layer_fits(layer),
        s.bucket_m * n <= u32::MAX,
    ensures
        c@ == bias_add_command(s, in_slot, out_slot, layer, n, is_affine),
{
    let bindings = vec![
        Binding::arena(in_slot, 0),
        Binding::weight(
            WeightBundleKind::LinearLayer,
            if is_affine {
                WeightTensor::AffineLinearBias
            } else {
                WeightTensor::Bias
            },
            s.layer(layer),
            s.locator(0),
            1,
        ),
        Binding::arena(out_slot, 2),
    ];
    let constants = vec![ConstantValue::uint(0, n)];
    let ghost spec = bias_add_command(s, in_slot, out_slot, layer, n, is_affine);
    assert(bindings@ =~= spec.bindings);
    assert(constants@ =~= spec.constants);
    LoweredCommand {
        kernel: KernelId::BiasAdd,
        library: "elementwise",
        function: pick_specialized_symbol(
            "bias_add_f16_specialized",
            "bias_add_bf16_specialized",
            s.params.metal_dtype,
        ),
        constants,
        dispatch: s.grid_1d(s.bucket_m * n),
        bindings,
        gemm_dims: None,
    }
}

// ---- Sliced language-model head ----

/// A row copy inside one arena slot, one thread per column.
pub open spec fn sample_slice_view(
    dtype: MetalDtype,
    slot: u32,
    row_stride: u32,
    kernel: KernelId,
    f16_symbol: &'static str,
    bf16_symbol: &'static str,
) -> CommandView {
    CommandView {
        kernel,
        library: "gather_last_token",
        function: specialized_symbol(f16_symbol, bf16_symbol, dtype),
        constants: (GatherLastTokenConstants { row_stride: HiddenSize(row_stride) }).values(),
        dispatch: DispatchShape {
            threadgroups: (
                ceil_div(row_stride as int, SAMPLE_SLICE_THREADS as int) as u32,
                1,
                1,
            ),
            threads_per_threadgroup: (SAMPLE_SLICE_THREADS, 1, 1),
            m_scaling: None,
        },
        bindings: seq![
            Binding::arena(slot, 0),
            Binding::runtime(RuntimeBindingKind::NumTokensU32, 1),
        ],
        gemm_dims: None,
    }
}

/// Builds a row copy inside one arena slot.
pub fn sample_slice_command(
    dtype: MetalDtype,
    slot: u32,
    row_stride: u32,
    kernel: KernelId,
    f16_symbol: &'static str,
    bf16_symbol: &'static str,
) -> (c: LoweredCommand)
    requires
        dtype !is Int4,
    ensures
        c@ == sample_slice_view(dtype, slot, row_stride, kernel, f16_symbol, bf16_symbol),
{
    let bindings = vec![
        Binding::arena(slot, 0),
        Binding::runtime(RuntimeBindingKind::NumTokensU32, 1),
    ];
    assert(bindings@ =~= sample_slice_view(
        dtype,
        slot,
        row_stride,
        kernel,
        f16_symbol,
        bf16_symbol,
    ).bindings);
    LoweredCommand {
        kernel,
        library: "gather_last_token",
        function: pick_specialized_symbol(f16_symbol, bf16_symbol, dtype),
        constants: (GatherLastTokenConstants {
            row_stride: HiddenSize(row_stride),
        }).into_values(),
        dispatch: DispatchShape {
            threadgroups: (div_ceil_u32(row_stride, SAMPLE_SLICE_THREADS), 1, 1),
            threads_per_threadgroup: (SAMPLE_SLICE_THREADS, 1, 1),
            m_scaling: None,
        },
        bindings,
        gemm_dims: None,
    }
}

/// Copy of the last token's hidden state to row 0.
pub open spec fn gather_last_token_view(
    dtype: MetalDtype,
    slot: u32,
    hidden_size: u32,
) -> CommandView {
    sample_slice_view(
        dtype,
        slot,
        hidden_size,
        KernelId::GatherLastToken,
        "gather_last_token_f16_specialized",
        "gather_last_token_bf16_specialized",
    )
}

/// Builds the copy of the last token's hidden state to row 0.
pub fn gather_last_token_command(
    dtype: MetalDtype,
    slot: u32,
    hidden_size: u32,
) -> (c: LoweredCommand)
    requires
        dtype !is Int4,
    ensures
        c@ == gather_last_token_view(dtype, slot, hidden_size),
{
    sample_slice_command(
        dtype,
        slot,
        hidden_size,
        KernelId::GatherLastToken,
        "gather_last_token_f16_specialized",
        "gather_last_token_bf16_specialized",
    )
}

/// Copy of the logits in row 0 to the last token's row.
pub open spec fn scatter_first_to_last_row_view(
    dtype: MetalDtype,
    slot: u32,
    vocab_size: u32,
) -> CommandView {
    sample_slice_view(
        dtype,
        slot,
        vocab_size,
        KernelId::ScatterFirstToLastRow,
        "scatter_first_to_last_row_f16_specialized",
        "scatter_first_to_last_row_bf16_specialized",
    )
}

/// Builds the copy of the logits in row 0 to the last token's row.
pub fn scatter_first_to_last_row_command(
    dtype: MetalDtype,
    slot: u32,
    vocab_size: u32,
) -> (c: LoweredCommand)
    requires
        dtype !is Int4,
    ensures
        c@ == scatter_first_to_last_row_view(dtype, slot, vocab_size),
{
    sample_slice_command(
        dtype,
        slot,
        vocab_size,
        KernelId::ScatterFirstToLastRow,
        "scatter_first_to_last_row_f16_specialized",
        "scatter_first_to_last_row_bf16_specialized",
    )
}

} // verus!
