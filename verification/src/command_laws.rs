//! What each command does for its kernel: which buffer stands at which
//! argument, which value at which constant slot, and how far its grid reaches.
use crate::arith::{ceil_div, lemma_ceil_div_covers};
use crate::commands::LowerSite;
use crate::ids::{BucketM, ConstSlot, LayerId};
use crate::instruction::{
    Instruction, KernelChoice, QmmTChoice, QmmTKernel, QmvChoice, QmvKernel,
};
use crate::lowered::{
    Binding, CommandView, ConstantValue, GemmDims, KernelId, MScaleAxis, MScaling,
    RuntimeBindingKind, WeightBundleKind, WeightLocator, WeightTensor,
};
use crate::lowering::{instruction_commands, lowerable};
use vstd::prelude::*;

verus! {

/// Argument `i` is arena slot `slot`.
pub open spec fn slot_at(c: CommandView, i: int, slot: u32) -> bool {
    c.bindings[i] == (Binding::ArenaSlot { slot, binding_index: i as u8 })
}

/// Argument `i` is a buffer of the forward call.
pub open spec fn runtime_at(c: CommandView, i: int, kind: RuntimeBindingKind) -> bool {
    c.bindings[i] == (Binding::Runtime { kind, binding_index: i as u8 })
}

/// Argument `i` is a tensor of the weight that accessor `sub` of the
/// instruction at `s` names in `layer`.
pub open spec fn weight_at(
    s: LowerSite,
    c: CommandView,
    i: int,
    kind: WeightBundleKind,
    which: WeightTensor,
    layer: int,
    sub: u32,
) -> bool {
    c.bindings[i] == (Binding::Weight {
        kind,
        which,
        layer: LayerId(layer as u32),
        locator: WeightLocator { bucket: s.tape_index, op_idx: s.index as u32, slot: sub },
        binding_index: i as u8,
    })
}

/// Constant `i` is a `uint` in slot `slot`.
pub open spec fn uint_at(c: CommandView, i: int, slot: u32, value: u32) -> bool {
    c.constants[i] == (ConstantValue::Uint { slot: ConstSlot(slot), value })
}

/// Constant `i` is an `int` in slot `slot`.
pub open spec fn int_at(c: CommandView, i: int, slot: u32, value: i32) -> bool {
    c.constants[i] == (ConstantValue::Int { slot: ConstSlot(slot), value })
}

/// Constant `i` is a `float` in slot `slot`, given by its bits.
pub open spec fn float_at(c: CommandView, i: int, slot: u32, bits: u32) -> bool {
    c.constants[i] == (ConstantValue::Float { slot: ConstSlot(slot), bits })
}

/// The one of two names that fits the activation type at `s`.
pub open spec fn for_dtype(s: LowerSite, half: &'static str, brain: &'static str) -> &'static str {
    if s.params.metal_dtype is Bf16 {
        brain
    } else {
        half
    }
}

/// The grid shrinks along `axis` from the bucket of `s` to the tokens at hand.
pub open spec fn follows_tokens(c: CommandView, s: LowerSite, axis: MScaleAxis) -> bool {
    c.dispatch.m_scaling == Some(MScaling { axis, bucket_m: BucketM(s.bucket_m) })
}

/// `n` groups of `size` cover `total` items, and one group fewer does not.
pub open spec fn just_covers(n: int, size: int, total: int) -> bool {
    &&& n * size >= total
    &&& n == 0 || (n - 1) * size < total
}

/// Rounding up covers just what is there.
pub proof fn lemma_just_covers(total: int, size: int)
    requires
        0 <= total <= u32::MAX,
        size > 0,
    ensures
        just_covers(ceil_div(total, size), size, total),
        0 <= ceil_div(total, size) <= u32::MAX,
{
    lemma_ceil_div_covers(total, size);
    let n = ceil_div(total, size);
    assert((n - 1) * size == n * size - size) by (nonlinear_arith);
    assert(total * size >= total) by (nonlinear_arith)
        requires
            total >= 0,
            size > 0,
    ;
    assert(n >= 0) by (nonlinear_arith)
        requires
            n * size >= total,
            total >= 0,
            size > 0,
    ;
}

/// The embedding gathers the rows that the token ids name, one thread per
/// token.
pub proof fn law_embed_command(
    s: LowerSite,
    out: u32,
)
    requires
        lowerable(s, Instruction::Embed(out), None),
    ensures
        instruction_commands(s, Instruction::Embed(out), None) matches Ok(cs) && cs.len() == 1 && ({
            let c = cs[0];
            &&& c.kernel == KernelId::Embed
            &&& c.library == "embed"
            &&& c.function == for_dtype(s, "embed_f16_specialized", "embed_bf16_specialized")
            &&& c.constants.len() == 2
            &&& uint_at(c, 0, 0, s.bucket_m)
            &&& uint_at(c, 1, 1, s.params.q_size as u32)
            &&& just_covers(c.dispatch.threadgroups.0 as int, 256, s.bucket_m as int)
            &&& c.dispatch.threadgroups.1 == 1
            &&& c.dispatch.threadgroups.2 == 1
            &&& c.dispatch.threads_per_threadgroup == (256u32, 1u32, 1u32)
            &&& follows_tokens(c, s, MScaleAxis::X)
            &&& c.bindings.len() == 3
            &&& slot_at(c, 0, out)
            &&& weight_at(s, c, 1, WeightBundleKind::Embedding, WeightTensor::Weight, 0, 0)
            &&& runtime_at(c, 2, RuntimeBindingKind::InputIds)
            &&& c.gemm_dims is None
        }),
{
    lemma_just_covers(s.bucket_m as int, 256);
}

/// RMSNorm reads its input slot and writes its output slot, one group per
/// token, with the gain of its layer.
pub proof fn law_rms_norm_command(
    s: LowerSite,
    input: u32,
    out: u32,
    layer: u32,
)
    requires
        lowerable(s, Instruction::RmsNorm(input, out, layer), None),
    ensures
        instruction_commands(
            s,
            Instruction::RmsNorm(input, out, layer),
            None,
        ) matches Ok(cs) && cs.len() == 1 && ({
            let c = cs[0];
            &&& c.kernel == KernelId::RmsNorm
            &&& c.library == "rmsnorm"
            &&& c.function == for_dtype(
                s,
                "rmsnorm_f16_s_f16_specialized",
                "rmsnorm_bf16_s_f16_specialized",
            )
            &&& c.constants.len() == 4
            &&& uint_at(c, 0, 0, s.bucket_m)
            &&& uint_at(c, 1, 1, s.params.q_size as u32)
            &&& float_at(c, 2, 2, s.params.rms_norm_eps_bits)
            &&& float_at(c, 3, 3, s.params.norm_weight_offset_bits)
            &&& c.dispatch.threadgroups.0 == s.bucket_m
            &&& c.dispatch.threadgroups.1 == 1
            &&& c.dispatch.threadgroups.2 == 1
            &&& c.dispatch.threads_per_threadgroup == (256u32, 1u32, 1u32)
            &&& follows_tokens(c, s, MScaleAxis::X)
            &&& c.bindings.len() == 3
            &&& slot_at(c, 0, out)
            &&& slot_at(c, 1, input)
            &&& weight_at(
                s,
                c,
                2,
                WeightBundleKind::RmsNorm,
                WeightTensor::Weight,
                layer + s.layer_offset,
                0,
            )
            &&& c.gemm_dims is None
        }),
{
}

/// The fused residual add updates the residual in place and adds the delta to
/// it.
pub proof fn law_fused_add_rms_norm_command(
    s: LowerSite,
    delta: u32,
    residual: u32,
    layer: u32,
)
    requires
        lowerable(s, Instruction::FusedAddRmsNorm(delta, residual, layer), None),
    ensures
        instruction_commands(
            s,
            Instruction::FusedAddRmsNorm(delta, residual, layer),
            None,
        ) matches Ok(cs) && cs.len() == 1 && ({
            let c = cs[0];
            &&& c.kernel == KernelId::FusedAddRmsNorm
            &&& c.library == "fused_add_rmsnorm"
            &&& c.function == for_dtype(
                s,
                "fused_add_rmsnorm_f16_s_f16_specialized",
                "fused_add_rmsnorm_bf16_s_f16_specialized",
            )
            &&& c.constants.len() == 4
            &&& uint_at(c, 0, 0, s.bucket_m)
            &&& uint_at(c, 1, 1, s.params.q_size as u32)
            &&& float_at(c, 2, 2, s.params.rms_norm_eps_bits)
            &&& float_at(c, 3, 3, s.params.norm_weight_offset_bits)
            &&& c.dispatch.threadgroups.0 == s.bucket_m
            &&& c.dispatch.threadgroups.1 == 1
            &&& c.dispatch.threadgroups.2 == 1
            &&& c.dispatch.threads_per_threadgroup == (256u32, 1u32, 1u32)
            &&& follows_tokens(c, s, MScaleAxis::X)
            &&& c.bindings.len() == 3
            &&& slot_at(c, 0, residual)
            &&& slot_at(c, 1, delta)
            &&& weight_at(
                s,
                c,
                2,
                WeightBundleKind::RmsNorm,
                WeightTensor::Weight,
                layer + s.layer_offset,
                0,
            )
            &&& c.gemm_dims is None
        }),
{
}

/// A dense product carries its dimensions and no symbol; its grid covers the
/// output with tiles of 16 by 16.
pub proof fn law_gemm_command(
    s: LowerSite,
    input: u32,
    out: u32,
    layer: u32,
    n: u32,
    k: u32,
)
    requires
        lowerable(s, Instruction::Gemm(input, out, layer, n, k), None),
    ensures
        instruction_commands(
            s,
            Instruction::Gemm(input, out, layer, n, k),
            None,
        ) matches Ok(cs) && cs.len() == 1 && ({
            let c = cs[0];
            &&& c.kernel == KernelId::Gemm
            &&& c.library == ""
            &&& c.function == ""
            &&& c.constants.len() == 0
            &&& just_covers(c.dispatch.threadgroups.0 as int, 16, s.bucket_m as int)
            &&& just_covers(c.dispatch.threadgroups.1 as int, 16, n as int)
            &&& c.dispatch.threadgroups.2 == 1
            &&& c.dispatch.threads_per_threadgroup == (16u32, 16u32, 1u32)
            &&& follows_tokens(c, s, MScaleAxis::X)
            &&& c.bindings.len() == 3
            &&& slot_at(c, 0, out)
            &&& slot_at(c, 1, input)
            &&& weight_at(
                s,
                c,
                2,
                WeightBundleKind::LinearLayer,
                WeightTensor::Weight,
                layer + s.layer_offset,
                0,
            )
            &&& c.gemm_dims == Some(GemmDims { m: s.bucket_m, n, k })
        }),
{
    lemma_just_covers(s.bucket_m as int, 16);
    lemma_just_covers(n as int, 16);
}

/// A matrix-vector product runs the picked kernel on its picked grid, which
/// follows the tokens: packed weights, scales, biases, input, output, and K
/// before N.
pub proof fn law_matrix_vector_command(
    s: LowerSite,
    input: u32,
    out: u32,
    layer: u32,
    n: u32,
    k: u32,
    group_size: u32,
    bits: u32,
    vector_limit: u32,
    p: QmvChoice,
)
    requires
        lowerable(
            s,
            Instruction::AffineQmm(input, out, layer, n, k, group_size, bits, vector_limit),
            Some(KernelChoice::Qmv(p)),
        ),
    ensures
        instruction_commands(
            s,
            Instruction::AffineQmm(input, out, layer, n, k, group_size, bits, vector_limit),
            Some(KernelChoice::Qmv(p)),
        ) matches Ok(cs) && cs.len() == 1 && ({
            let c = cs[0];
            &&& match p.kernel {
                QmvKernel::Quad { .. } => c.kernel is AffineQmvQuad,
                QmvKernel::Fast => c.kernel is AffineQmvFast,
                QmvKernel::Generic => c.kernel is AffineQmv,
            }
            &&& c.library == "quantized_qmv"
            &&& c.function == p.function
            &&& c.constants.len() == 2
            &&& int_at(c, 0, 0, k as i32)
            &&& int_at(c, 1, 1, n as i32)
            &&& c.dispatch.threadgroups == p.threadgroups
            &&& c.dispatch.threads_per_threadgroup == p.threads_per_threadgroup
            &&& follows_tokens(c, s, MScaleAxis::X)
            &&& c.bindings.len() == 5
            &&& weight_at(
                s,
                c,
                0,
                WeightBundleKind::LinearLayer,
                WeightTensor::Weight,
                layer + s.layer_offset,
                0,
            )
            &&& weight_at(
                s,
                c,
                1,
                WeightBundleKind::LinearLayer,
                WeightTensor::AffineScales,
                layer + s.layer_offset,
                0,
            )
            &&& weight_at(
                s,
                c,
                2,
                WeightBundleKind::LinearLayer,
                WeightTensor::AffineBiases,
                layer + s.layer_offset,
                0,
            )
            &&& slot_at(c, 3, input)
            &&& slot_at(c, 4, out)
            &&& c.gemm_dims is None
        }),
{
}

/// A one-pass matrix product runs the picked kernel: K, N and the bucket's rows
/// in slots 0 to 2, and the symbol for widths that are whole tiles exactly where
/// the width is, with tiles of 64 columns on the neural accelerators and of 32
/// elsewhere.
pub proof fn law_one_pass_command(
    s: LowerSite,
    input: u32,
    out: u32,
    layer: u32,
    n: u32,
    k: u32,
    group_size: u32,
    bits: u32,
    vector_limit: u32,
    p: QmmTChoice,
)
    requires
        lowerable(
            s,
            Instruction::AffineQmm(input, out, layer, n, k, group_size, bits, vector_limit),
            Some(KernelChoice::QmmT(p)),
        ),
        p.kernel !is SplitK,
    ensures
        instruction_commands(
            s,
            Instruction::AffineQmm(input, out, layer, n, k, group_size, bits, vector_limit),
            Some(KernelChoice::QmmT(p)),
        ) matches Ok(cs) && cs.len() == 1 && ({
            let c = cs[0];
            &&& p.kernel is Nax ==> c.kernel is AffineQmmTNax && c.library == "quantized_qmm_nax"
            &&& p.kernel is Standard ==> c.kernel is AffineQmmT && c.library == "quantized_qmm"
            &&& (p.kernel is Nax && n % 64 == 0) || (p.kernel is Standard && n % 32 == 0)
                ==> c.function == p.function_aligned
            &&& (p.kernel is Nax && n % 64 != 0) || (p.kernel is Standard && n % 32 != 0)
                ==> c.function == p.function_unaligned
            &&& c.constants.len() == 3
            &&& int_at(c, 0, 0, k as i32)
            &&& int_at(c, 1, 1, n as i32)
            &&& int_at(c, 2, 2, s.bucket_m as i32)
            &&& c.dispatch.threadgroups == p.threadgroups
            &&& c.dispatch.threads_per_threadgroup == p.threads_per_threadgroup
            &&& follows_tokens(c, s, MScaleAxis::Y)
            &&& c.bindings.len() == 5
            &&& weight_at(
                s,
                c,
                0,
                WeightBundleKind::LinearLayer,
                WeightTensor::Weight,
                layer + s.layer_offset,
                0,
            )
            &&& weight_at(
                s,
                c,
                1,
                WeightBundleKind::LinearLayer,
                WeightTensor::AffineScales,
                layer + s.layer_offset,
                0,
            )
            &&& weight_at(
                s,
                c,
                2,
                WeightBundleKind::LinearLayer,
                WeightTensor::AffineBiases,
                layer + s.layer_offset,
                0,
            )
            &&& slot_at(c, 3, input)
            &&& slot_at(c, 4, out)
            &&& c.gemm_dims is None
        }),
{
}

/// A split-K product writes its partials to the scratch buffer, and the command
/// behind it sums them into the output. The first carries K, N, the bucket's rows
/// and the partition size in slots 0 to 3, the second the rows, N and the number
/// of partials, so that where the picked partitions make up K, the partitions of
/// the one times the partials of the other do too.
pub proof fn law_split_k_commands(
    s: LowerSite,
    input: u32,
    out: u32,
    layer: u32,
    n: u32,
    k: u32,
    group_size: u32,
    bits: u32,
    vector_limit: u32,
    p: QmmTChoice,
    split_k: u32,
    k_partition_size: u32,
)
    requires
        lowerable(
            s,
            Instruction::AffineQmm(input, out, layer, n, k, group_size, bits, vector_limit),
            Some(KernelChoice::QmmT(p)),
        ),
        p.kernel == (QmmTKernel::SplitK { split_k, k_partition_size }),
    ensures
        instruction_commands(
            s,
            Instruction::AffineQmm(input, out, layer, n, k, group_size, bits, vector_limit),
            Some(KernelChoice::QmmT(p)),
        ) matches Ok(cs) && cs.len() == 2 && ({
            let c = cs[0];
            let r = cs[1];
            &&& c.kernel is AffineQmmTSplitK
            &&& c.library == "quantized_qmm"
            &&& n % 32 == 0 ==> c.function == p.function_aligned
            &&& n % 32 != 0 ==> c.function == p.function_unaligned
            &&& c.constants.len() == 4
            &&& int_at(c, 0, 0, k as i32)
            &&& int_at(c, 1, 1, n as i32)
            &&& int_at(c, 2, 2, s.bucket_m as i32)
            &&& int_at(c, 3, 3, k_partition_size as i32)
            &&& c.dispatch.threadgroups == p.threadgroups
            &&& c.dispatch.threads_per_threadgroup == p.threads_per_threadgroup
            &&& follows_tokens(c, s, MScaleAxis::Y)
            &&& c.bindings.len() == 5
            &&& weight_at(
                s,
                c,
                0,
                WeightBundleKind::LinearLayer,
                WeightTensor::Weight,
                layer + s.layer_offset,
                0,
            )
            &&& weight_at(
                s,
                c,
                1,
                WeightBundleKind::LinearLayer,
                WeightTensor::AffineScales,
                layer + s.layer_offset,
                0,
            )
            &&& weight_at(
                s,
                c,
                2,
                WeightBundleKind::LinearLayer,
                WeightTensor::AffineBiases,
                layer + s.layer_offset,
                0,
            )
            &&& slot_at(c, 3, input)
            &&& c.bindings[4] == (Binding::Scratch { binding_index: 4 })
            &&& r.kernel is SplitKReduceSum
            &&& r.library == "quantized_splitk_reduce"
            &&& r.function == p.reduce_function
            &&& r.constants.len() == 3
            &&& uint_at(r, 0, 0, s.bucket_m)
            &&& uint_at(r, 1, 1, n)
            &&& uint_at(r, 2, 2, split_k)
            &&& s.bucket_m * n <= u32::MAX ==> just_covers(
                r.dispatch.threadgroups.0 as int,
                256,
                s.bucket_m * n,
            )
            &&& r.dispatch.threadgroups.1 == 1 && r.dispatch.threadgroups.2 == 1
            &&& r.dispatch.threads_per_threadgroup == (256u32, 1u32, 1u32)
            &&& follows_tokens(r, s, MScaleAxis::X)
            &&& r.bindings.len() == 2
            &&& slot_at(r, 0, out)
            &&& r.bindings[1] == (Binding::Scratch { binding_index: 1 })
            &&& k_partition_size * split_k == k && k <= i32::MAX && split_k > 0
                ==> c.constants[3]->Int_value * r.constants[2]->Uint_value
                == c.constants[0]->Int_value
        }),
{
    if s.bucket_m * n <= u32::MAX {
        assert(0 <= s.bucket_m * n) by (nonlinear_arith)
            requires
                s.bucket_m >= 0,
                n >= 0,
        ;
        lemma_just_covers(s.bucket_m * n, 256);
    }
    if k_partition_size * split_k == k && split_k > 0 {
        assert(k_partition_size <= k) by (nonlinear_arith)
            requires
                k_partition_size * split_k == k,
                split_k > 0,
                k_partition_size >= 0,
        ;
    }
}

/// The SiLU product takes its gating input at argument 1 and the up projection
/// at argument 2, one thread per element.
pub proof fn law_silu_mul_command(
    s: LowerSite,
    gate: u32,
    up: u32,
    out: u32,
)
    requires
        lowerable(s, Instruction::SiluMul(gate, up, out), None),
    ensures
        instruction_commands(
            s,
            Instruction::SiluMul(gate, up, out),
            None,
        ) matches Ok(cs) && cs.len() == 1 && ({
            let c = cs[0];
            &&& c.kernel == KernelId::SiluMul
            &&& c.library == "silu_mul"
            &&& c.function == for_dtype(s, "silu_mul_f16", "silu_mul_bf16")
            &&& c.constants.len() == 1
            &&& uint_at(c, 0, 0, (s.bucket_m * (s.params.intermediate_size as u32)) as u32)
            &&& just_covers(
                c.dispatch.threadgroups.0 as int,
                256,
                s.bucket_m * (s.params.intermediate_size as u32),
            )
            &&& c.dispatch.threadgroups.1 == 1
            &&& c.dispatch.threadgroups.2 == 1
            &&& c.dispatch.threads_per_threadgroup == (256u32, 1u32, 1u32)
            &&& follows_tokens(c, s, MScaleAxis::X)
            &&& c.bindings.len() == 3
            &&& slot_at(c, 0, out)
            &&& slot_at(c, 1, gate)
            &&& slot_at(c, 2, up)
            &&& c.gemm_dims is None
        }),
{
    lemma_just_covers(s.bucket_m * (s.params.intermediate_size as u32), 256);
}

/// The quantized embedding gathers packed rows, two values per thread and one
/// row of groups per token, with the symbol of its group size.
pub proof fn law_affine_embed_command(
    s: LowerSite,
    out: u32,
    group_size: u32,
    bits: u32,
)
    requires
        lowerable(s, Instruction::AffineEmbed(out, group_size, bits), None),
    ensures
        instruction_commands(
            s,
            Instruction::AffineEmbed(out, group_size, bits),
            None,
        ) matches Ok(cs) && cs.len() == 1 && ({
            let c = cs[0];
            &&& c.kernel == KernelId::AffineEmbed
            &&& c.library == "quantized_dequantize"
            &&& group_size == 32 ==> c.function == for_dtype(
                s,
                "affine_embed_f16_s_f16_gs_32_b_4",
                "affine_embed_bf16_s_f16_gs_32_b_4",
            )
            &&& group_size == 64 ==> c.function == for_dtype(
                s,
                "affine_embed_f16_s_f16_gs_64_b_4",
                "affine_embed_bf16_s_f16_gs_64_b_4",
            )
            &&& group_size == 128 ==> c.function == for_dtype(
                s,
                "affine_embed_f16_s_f16_gs_128_b_4",
                "affine_embed_bf16_s_f16_gs_128_b_4",
            )
            &&& c.constants.len() == 1
            &&& uint_at(c, 0, 0, s.params.q_size as u32)
            &&& just_covers(
                c.dispatch.threadgroups.0 as int,
                256,
                ((s.params.q_size as u32) / 2) as int,
            )
            &&& c.dispatch.threadgroups.1 == s.bucket_m
            &&& c.dispatch.threadgroups.2 == 1
            &&& c.dispatch.threads_per_threadgroup == (256u32, 1u32, 1u32)
            &&& follows_tokens(c, s, MScaleAxis::Y)
            &&& c.bindings.len() == 5
            &&& weight_at(
                s,
                c,
                0,
                WeightBundleKind::AffineQuantEmbedding,
                WeightTensor::Weight,
                0,
                0,
            )
            &&& weight_at(
                s,
                c,
                1,
                WeightBundleKind::AffineQuantEmbedding,
                WeightTensor::AffineScales,
                0,
                0,
            )
            &&& weight_at(
                s,
                c,
                2,
                WeightBundleKind::AffineQuantEmbedding,
                WeightTensor::AffineBiases,
                0,
                0,
            )
            &&& runtime_at(c, 3, RuntimeBindingKind::InputIds)
            &&& slot_at(c, 4, out)
            &&& c.gemm_dims is None
        }),
{
    lemma_just_covers(((s.params.q_size as u32) / 2) as int, 256);
}

/// One token takes the matrix-vector SwiGLU kernel, four output columns per
/// group.
pub proof fn law_gate_up_command_of_one_token(
    s: LowerSite,
    input: u32,
    out: u32,
    layer: u32,
)
    requires
        lowerable(s, Instruction::FusedGateUpSiluMul(input, out, layer), None),
        s.bucket_m == 1,
    ensures
        instruction_commands(
            s,
            Instruction::FusedGateUpSiluMul(input, out, layer),
            None,
        ) matches Ok(cs) && cs.len() == 1 && ({
            let c = cs[0];
            &&& c.kernel == KernelId::FusedGateUpSiluMul
            &&& c.library == "fused_gate_up_silu_mul"
            &&& c.function == for_dtype(
                s,
                "fused_gate_up_silu_mul_decode_f16_specialized",
                "fused_gate_up_silu_mul_decode_bf16_specialized",
            )
            &&& c.constants.len() == 3
            &&& uint_at(c, 0, 3, s.bucket_m)
            &&& uint_at(c, 1, 4, s.params.intermediate_size as u32)
            &&& uint_at(c, 2, 5, s.params.q_size as u32)
            &&& just_covers(
                c.dispatch.threadgroups.0 as int,
                4,
                (s.params.intermediate_size as u32) as int,
            )
            &&& c.dispatch.threadgroups.1 == 1
            &&& c.dispatch.threadgroups.2 == 1
            &&& c.dispatch.threads_per_threadgroup == (256u32, 1u32, 1u32)
            &&& c.dispatch.m_scaling is None
            &&& c.bindings.len() == 3
            &&& slot_at(c, 0, out)
            &&& slot_at(c, 1, input)
            &&& weight_at(
                s,
                c,
                2,
                WeightBundleKind::LinearLayer,
                WeightTensor::Weight,
                layer + s.layer_offset,
                0,
            )
            &&& c.gemm_dims is None
        }),
{
    lemma_just_covers((s.params.intermediate_size as u32) as int, 4);
}

/// Several tokens take the tiled SwiGLU kernel, on tiles of 32 by 32: columns on
/// x, tokens on y.
pub proof fn law_gate_up_command_of_several_tokens(
    s: LowerSite,
    input: u32,
    out: u32,
    layer: u32,
)
    requires
        lowerable(s, Instruction::FusedGateUpSiluMul(input, out, layer), None),
        s.bucket_m != 1,
    ensures
        instruction_commands(
            s,
            Instruction::FusedGateUpSiluMul(input, out, layer),
            None,
        ) matches Ok(cs) && cs.len() == 1 && ({
            let c = cs[0];
            &&& c.kernel == KernelId::FusedGateUpSiluMul
            &&& c.library == "fused_gate_up_silu_mul"
            &&& c.function == for_dtype(
                s,
                "fused_gate_up_silu_mul_gemm_steel_f16_specialized",
                "fused_gate_up_silu_mul_gemm_steel_bf16_specialized",
            )
            &&& c.constants.len() == 3
            &&& uint_at(c, 0, 6, s.bucket_m)
            &&& uint_at(c, 1, 7, s.params.intermediate_size as u32)
            &&& uint_at(c, 2, 8, s.params.q_size as u32)
            &&& just_covers(
                c.dispatch.threadgroups.0 as int,
                32,
                (s.params.intermediate_size as u32) as int,
            )
            &&& just_covers(c.dispatch.threadgroups.1 as int, 32, s.bucket_m as int)
            &&& c.dispatch.threadgroups.2 == 1
            &&& c.dispatch.threads_per_threadgroup == (128u32, 1u32, 1u32)
            &&& follows_tokens(c, s, MScaleAxis::Y)
            &&& c.bindings.len() == 3
            &&& slot_at(c, 0, out)
            &&& slot_at(c, 1, input)
            &&& weight_at(
                s,
                c,
                2,
                WeightBundleKind::LinearLayer,
                WeightTensor::Weight,
                layer + s.layer_offset,
                0,
            )
            &&& c.gemm_dims is None
        }),
{
    lemma_just_covers((s.params.intermediate_size as u32) as int, 32);
    lemma_just_covers(s.bucket_m as int, 32);
}

/// The rotary append writes the three output slots and the layer's caches, keys
/// at argument 6 and values at argument 7, one group per token and query head.
pub proof fn law_rope_append_command(
    s: LowerSite,
    q: u32,
    k: u32,
    v: u32,
    q_out: u32,
    k_out: u32,
    v_out: u32,
    layer: u32,
    interleaved: bool,
)
    requires
        lowerable(
            s,
            Instruction::RopeAppend(q, k, v, q_out, k_out, v_out, layer, interleaved),
            None,
        ),
    ensures
        instruction_commands(
            s,
            Instruction::RopeAppend(q, k, v, q_out, k_out, v_out, layer, interleaved),
            None,
        ) matches Ok(cs) && cs.len() == 1 && ({
            let c = cs[0];
            &&& c.kernel == KernelId::RopeAppend
            &&& c.library == "rope"
            &&& c.function == for_dtype(
                s,
                "rope_append_f16_specialized",
                "rope_append_bf16_specialized",
            )
            &&& c.constants.len() == 6
            &&& uint_at(c, 0, 0, s.params.head_dim)
            &&& uint_at(c, 1, 1, s.params.num_q_heads)
            &&& uint_at(c, 2, 2, s.params.num_kv_heads)
            &&& uint_at(c, 3, 3, s.params.rot_dim)
            &&& uint_at(c, 4, 4, s.params.block_size)
            &&& uint_at(c, 5, 5, s.params.blocks_per_chunk)
            &&& c.dispatch.threadgroups.0 == s.bucket_m
            &&& c.dispatch.threadgroups.1 == s.params.num_q_heads
            &&& c.dispatch.threadgroups.2 == 1
            &&& c.dispatch.threads_per_threadgroup == (s.params.head_dim, 1u32, 1u32)
            &&& follows_tokens(c, s, MScaleAxis::X)
            &&& c.bindings.len() == 8
            &&& slot_at(c, 0, q_out)
            &&& slot_at(c, 1, k_out)
            &&& slot_at(c, 2, v_out)
            &&& weight_at(
                s,
                c,
                3,
                WeightBundleKind::CosSin,
                WeightTensor::Weight,
                layer + s.layer_offset,
                0,
            )
            &&& runtime_at(c, 4, RuntimeBindingKind::Positions)
            &&& runtime_at(c, 5, RuntimeBindingKind::SlotMapping)
            &&& runtime_at(
                c,
                6,
                RuntimeBindingKind::KvCacheK { layer: LayerId((layer + s.layer_offset) as u32) },
            )
            &&& runtime_at(
                c,
                7,
                RuntimeBindingKind::KvCacheV { layer: LayerId((layer + s.layer_offset) as u32) },
            )
            &&& c.gemm_dims is None
        }),
{
}

/// The fused projection writes queries to its output slot, and keys and values to
/// the layer's caches at arguments 6 and 7, one group per token and head of any
/// kind.
pub proof fn law_fused_qkv_rope_cache_command(
    s: LowerSite,
    input: u32,
    out: u32,
    layer: u32,
    biased: bool,
    interleaved: bool,
)
    requires
        lowerable(s, Instruction::FusedQkvRopeCache(input, out, layer, biased, interleaved), None),
    ensures
        instruction_commands(
            s,
            Instruction::FusedQkvRopeCache(input, out, layer, biased, interleaved),
            None,
        ) matches Ok(cs) && cs.len() == 1 && ({
            let c = cs[0];
            &&& c.kernel == KernelId::FusedQkvRopeCache
            &&& c.library == "fused_qkv_rope_cache"
            &&& c.function == for_dtype(
                s,
                "fused_qkv_rope_cache_f16_specialized",
                "fused_qkv_rope_cache_bf16_specialized",
            )
            &&& c.constants.len() == 8
            &&& uint_at(c, 0, 0, s.params.q_size as u32)
            &&& uint_at(c, 1, 1, s.params.num_q_heads)
            &&& uint_at(c, 2, 2, s.params.num_kv_heads)
            &&& uint_at(c, 3, 3, s.params.head_dim)
            &&& uint_at(c, 4, 4, s.params.rot_dim)
            &&& uint_at(c, 5, 5, s.params.block_size)
            &&& uint_at(c, 6, 6, s.bucket_m)
            &&& uint_at(c, 7, 7, s.params.blocks_per_chunk)
            &&& c.dispatch.threadgroups.0 == s.bucket_m
            &&& c.dispatch.threadgroups.1 == s.params.num_q_heads + 2 * s.params.num_kv_heads
            &&& c.dispatch.threadgroups.2 == 1
            &&& c.dispatch.threads_per_threadgroup == (s.params.head_dim, 1u32, 1u32)
            &&& follows_tokens(c, s, MScaleAxis::X)
            &&& c.bindings.len() == 8
            &&& slot_at(c, 0, out)
            &&& slot_at(c, 1, input)
            &&& weight_at(
                s,
                c,
                2,
                WeightBundleKind::LinearLayer,
                WeightTensor::Weight,
                layer + s.layer_offset,
                0,
            )
            &&& weight_at(
                s,
                c,
                3,
                WeightBundleKind::CosSin,
                WeightTensor::Weight,
                layer + s.layer_offset,
                1,
            )
            &&& runtime_at(c, 4, RuntimeBindingKind::Positions)
            &&& runtime_at(c, 5, RuntimeBindingKind::SlotMapping)
            &&& runtime_at(
                c,
                6,
                RuntimeBindingKind::KvCacheK { layer: LayerId((layer + s.layer_offset) as u32) },
            )
            &&& runtime_at(
                c,
                7,
                RuntimeBindingKind::KvCacheV { layer: LayerId((layer + s.layer_offset) as u32) },
            )
            &&& c.gemm_dims is None
        }),
{
}

/// The synthesized pre-attention kernel takes the projections of queries, keys
/// and values in this order, then the rotary table, positions, slots, and the
/// caches of keys and of values.
pub proof fn law_synth_pre_attn_command(
    s: LowerSite,
    residual: u32,
    delta: u32,
    q_out: u32,
    layer: u32,
    group_size: u32,
    bits: u32,
    symbol: &'static str,
)
    requires
        lowerable(
            s,
            Instruction::SynthPreAttn(
                residual,
                delta,
                q_out,
                layer,
                group_size,
                bits,
                symbol,
                false,
            ),
            None,
        ),
    ensures
        instruction_commands(
            s,
            Instruction::SynthPreAttn(
                residual,
                delta,
                q_out,
                layer,
                group_size,
                bits,
                symbol,
                false,
            ),
            None,
        ) matches Ok(cs) && cs.len() == 1 && ({
            let c = cs[0];
            &&& c.kernel == KernelId::SynthPreAttn
            &&& c.library == symbol
            &&& c.function == symbol
            &&& c.constants.len() == 1
            &&& uint_at(c, 0, 0, s.bucket_m)
            &&& c.dispatch.threadgroups.0 == s.bucket_m
            &&& c.dispatch.threadgroups.1 == s.params.num_q_heads + 2 * s.params.num_kv_heads
            &&& c.dispatch.threadgroups.2 == 1
            &&& c.dispatch.threads_per_threadgroup == ((8 * s.params.head_dim) as u32, 1u32, 1u32)
            &&& follows_tokens(c, s, MScaleAxis::X)
            &&& c.bindings.len() == 18
            &&& slot_at(c, 0, q_out)
            &&& slot_at(c, 1, residual)
            &&& slot_at(c, 2, delta)
            &&& weight_at(
                s,
                c,
                3,
                WeightBundleKind::RmsNorm,
                WeightTensor::Weight,
                layer + s.layer_offset,
                0,
            )
            &&& weight_at(
                s,
                c,
                4,
                WeightBundleKind::LinearLayer,
                WeightTensor::Weight,
                layer + s.layer_offset,
                0,
            )
            &&& weight_at(
                s,
                c,
                5,
                WeightBundleKind::LinearLayer,
                WeightTensor::AffineScales,
                layer + s.layer_offset,
                0,
            )
            &&& weight_at(
                s,
                c,
                6,
                WeightBundleKind::LinearLayer,
                WeightTensor::AffineBiases,
                layer + s.layer_offset,
                0,
            )
            &&& weight_at(
                s,
                c,
                7,
                WeightBundleKind::LinearLayer,
                WeightTensor::Weight,
                layer + s.layer_offset,
                1,
            )
            &&& weight_at(
                s,
                c,
                8,
                WeightBundleKind::LinearLayer,
                WeightTensor::AffineScales,
                layer + s.layer_offset,
                1,
            )
            &&& weight_at(
                s,
                c,
                9,
                WeightBundleKind::LinearLayer,
                WeightTensor::AffineBiases,
                layer + s.layer_offset,
                1,
            )
            &&& weight_at(
                s,
                c,
                10,
                WeightBundleKind::LinearLayer,
                WeightTensor::Weight,
                layer + s.layer_offset,
                2,
            )
            &&& weight_at(
                s,
                c,
                11,
                WeightBundleKind::LinearLayer,
                WeightTensor::AffineScales,
                layer + s.layer_offset,
                2,
            )
            &&& weight_at(
                s,
                c,
                12,
                WeightBundleKind::LinearLayer,
                WeightTensor::AffineBiases,
                layer + s.layer_offset,
                2,
            )
            &&& weight_at(
                s,
                c,
                13,
                WeightBundleKind::CosSin,
                WeightTensor::Weight,
                layer + s.layer_offset,
                0,
            )
            &&& runtime_at(c, 14, RuntimeBindingKind::Positions)
            &&& runtime_at(c, 15, RuntimeBindingKind::SlotMapping)
            &&& runtime_at(
                c,
                16,
                RuntimeBindingKind::KvCacheK { layer: LayerId((layer + s.layer_offset) as u32) },
            )
            &&& runtime_at(
                c,
                17,
                RuntimeBindingKind::KvCacheV { layer: LayerId((layer + s.layer_offset) as u32) },
            )
            &&& c.gemm_dims is None
        }),
{
}

/// A model with projection biases adds those of queries, keys and values, in
/// this order, behind the caches.
pub proof fn law_synth_pre_attn_command_with_bias(
    s: LowerSite,
    residual: u32,
    delta: u32,
    q_out: u32,
    layer: u32,
    group_size: u32,
    bits: u32,
    symbol: &'static str,
)
    requires
        lowerable(
            s,
            Instruction::SynthPreAttn(
                residual,
                delta,
                q_out,
                layer,
                group_size,
                bits,
                symbol,
                true,
            ),
            None,
        ),
    ensures
        instruction_commands(
            s,
            Instruction::SynthPreAttn(
                residual,
                delta,
                q_out,
                layer,
                group_size,
                bits,
                symbol,
                true,
            ),
            None,
        ) matches Ok(cs) && cs.len() == 1 && ({
            let c = cs[0];
            &&& c.kernel == KernelId::SynthPreAttn
            &&& c.library == symbol
            &&& c.function == symbol
            &&& c.constants.len() == 1
            &&& uint_at(c, 0, 0, s.bucket_m)
            &&& c.dispatch.threadgroups.0 == s.bucket_m
            &&& c.dispatch.threadgroups.1 == s.params.num_q_heads + 2 * s.params.num_kv_heads
            &&& c.dispatch.threadgroups.2 == 1
            &&& c.dispatch.threads_per_threadgroup == ((8 * s.params.head_dim) as u32, 1u32, 1u32)
            &&& follows_tokens(c, s, MScaleAxis::X)
            &&& c.bindings.len() == 21
            &&& slot_at(c, 0, q_out)
            &&& slot_at(c, 1, residual)
            &&& slot_at(c, 2, delta)
            &&& weight_at(
                s,
                c,
                3,
                WeightBundleKind::RmsNorm,
                WeightTensor::Weight,
                layer + s.layer_offset,
                0,
            )
            &&& weight_at(
                s,
                c,
                4,
                WeightBundleKind::LinearLayer,
                WeightTensor::Weight,
                layer + s.layer_offset,
                0,
            )
            &&& weight_at(
                s,
                c,
                5,
                WeightBundleKind::LinearLayer,
                WeightTensor::AffineScales,
                layer + s.layer_offset,
                0,
            )
            &&& weight_at(
                s,
                c,
                6,
                WeightBundleKind::LinearLayer,
                WeightTensor::AffineBiases,
                layer + s.layer_offset,
                0,
            )
            &&& weight_at(
                s,
                c,
                7,
                WeightBundleKind::LinearLayer,
                WeightTensor::Weight,
                layer + s.layer_offset,
                1,
            )
            &&& weight_at(
                s,
                c,
                8,
                WeightBundleKind::LinearLayer,
                WeightTensor::AffineScales,
                layer + s.layer_offset,
                1,
            )
            &&& weight_at(
                s,
                c,
                9,
                WeightBundleKind::LinearLayer,
                WeightTensor::AffineBiases,
                layer + s.layer_offset,
                1,
            )
            &&& weight_at(
                s,
                c,
                10,
                WeightBundleKind::LinearLayer,
                WeightTensor::Weight,
                layer + s.layer_offset,
                2,
            )
            &&& weight_at(
                s,
                c,
                11,
                WeightBundleKind::LinearLayer,
                WeightTensor::AffineScales,
                layer + s.layer_offset,
                2,
            )
            &&& weight_at(
                s,
                c,
                12,
                WeightBundleKind::LinearLayer,
                WeightTensor::AffineBiases,
                layer + s.layer_offset,
                2,
            )
            &&& weight_at(
                s,
                c,
                13,
                WeightBundleKind::CosSin,
                WeightTensor::Weight,
                layer + s.layer_offset,
                0,
            )
            &&& runtime_at(c, 14, RuntimeBindingKind::Positions)
            &&& runtime_at(c, 15, RuntimeBindingKind::SlotMapping)
            &&& runtime_at(
                c,
                16,
                RuntimeBindingKind::KvCacheK { layer: LayerId((layer + s.layer_offset) as u32) },
            )
            &&& runtime_at(
                c,
                17,
                RuntimeBindingKind::KvCacheV { layer: LayerId((layer + s.layer_offset) as u32) },
            )
            &&& weight_at(
                s,
                c,
                18,
                WeightBundleKind::LinearLayer,
                WeightTensor::AffineLinearBias,
                layer + s.layer_offset,
                0,
            )
            &&& weight_at(
                s,
                c,
                19,
                WeightBundleKind::LinearLayer,
                WeightTensor::AffineLinearBias,
                layer + s.layer_offset,
                1,
            )
            &&& weight_at(
                s,
                c,
                20,
                WeightBundleKind::LinearLayer,
                WeightTensor::AffineLinearBias,
                layer + s.layer_offset,
                2,
            )
            &&& c.gemm_dims is None
        }),
{
}

/// The synthesized MLP kernel takes gate and up projections in this order,
/// one group per token and tile of as many columns as a head has.
pub proof fn law_synth_mlp_pre_down_command(
    s: LowerSite,
    residual: u32,
    delta: u32,
    out: u32,
    layer: u32,
    group_size: u32,
    bits: u32,
    symbol: &'static str,
)
    requires
        lowerable(
            s,
            Instruction::SynthMlpPreDown(residual, delta, out, layer, group_size, bits, symbol),
            None,
        ),
    ensures
        instruction_commands(
            s,
            Instruction::SynthMlpPreDown(residual, delta, out, layer, group_size, bits, symbol),
            None,
        ) matches Ok(cs) && cs.len() == 1 && ({
            let c = cs[0];
            &&& c.kernel == KernelId::SynthMlpPreDown
            &&& c.library == symbol
            &&& c.function == symbol
            &&& c.constants.len() == 1
            &&& uint_at(c, 0, 0, s.bucket_m)
            &&& c.dispatch.threadgroups.0 == s.bucket_m
            &&& c.dispatch.threadgroups.1 * s.params.head_dim == s.params.intermediate_size as u32
            &&& c.dispatch.threadgroups.2 == 1
            &&& c.dispatch.threads_per_threadgroup == ((8 * s.params.head_dim) as u32, 1u32, 1u32)
            &&& follows_tokens(c, s, MScaleAxis::X)
            &&& c.bindings.len() == 10
            &&& slot_at(c, 0, out)
            &&& slot_at(c, 1, residual)
            &&& slot_at(c, 2, delta)
            &&& weight_at(
                s,
                c,
                3,
                WeightBundleKind::RmsNorm,
                WeightTensor::Weight,
                layer + s.layer_offset,
                0,
            )
            &&& weight_at(
                s,
                c,
                4,
                WeightBundleKind::LinearLayer,
                WeightTensor::Weight,
                layer + s.layer_offset,
                0,
            )
            &&& weight_at(
                s,
                c,
                5,
                WeightBundleKind::LinearLayer,
                WeightTensor::AffineScales,
                layer + s.layer_offset,
                0,
            )
            &&& weight_at(
                s,
                c,
                6,
                WeightBundleKind::LinearLayer,
                WeightTensor::AffineBiases,
                layer + s.layer_offset,
                0,
            )
            &&& weight_at(
                s,
                c,
                7,
                WeightBundleKind::LinearLayer,
                WeightTensor::Weight,
                layer + s.layer_offset,
                1,
            )
            &&& weight_at(
                s,
                c,
                8,
                WeightBundleKind::LinearLayer,
                WeightTensor::AffineScales,
                layer + s.layer_offset,
                1,
            )
            &&& weight_at(
                s,
                c,
                9,
                WeightBundleKind::LinearLayer,
                WeightTensor::AffineBiases,
                layer + s.layer_offset,
                1,
            )
            &&& c.gemm_dims is None
        }),
{
    vstd::arithmetic::div_mod::lemma_fundamental_div_mod(
        (s.params.intermediate_size as u32) as int,
        s.params.head_dim as int,
    );
    let tiles = (s.params.intermediate_size as u32) as int / s.params.head_dim as int;
    assert(0 <= tiles <= (s.params.intermediate_size as u32)) by (nonlinear_arith)
        requires
            s.params.head_dim > 0,
            (s.params.intermediate_size as u32) as int == s.params.head_dim * tiles,
            (s.params.intermediate_size as u32) >= 0,
    ;
    assert(tiles * s.params.head_dim == s.params.head_dim * tiles) by (nonlinear_arith);
}

/// The synthesized gate/up product takes gate and up projections in this order,
/// on tiles of 32 by 32: columns on x, tokens on y.
pub proof fn law_synth_gate_up_silu_mul_command(
    s: LowerSite,
    x_norm: u32,
    out: u32,
    layer: u32,
    group_size: u32,
    bits: u32,
    symbol: &'static str,
)
    requires
        lowerable(
            s,
            Instruction::SynthGateUpSiluMul(x_norm, out, layer, group_size, bits, symbol),
            None,
        ),
    ensures
        instruction_commands(
            s,
            Instruction::SynthGateUpSiluMul(x_norm, out, layer, group_size, bits, symbol),
            None,
        ) matches Ok(cs) && cs.len() == 1 && ({
            let c = cs[0];
            &&& c.kernel == KernelId::SynthGateUpSiluMul
            &&& c.library == symbol
            &&& c.function == symbol
            &&& c.constants.len() == 1
            &&& uint_at(c, 0, 0, s.bucket_m)
            &&& just_covers(
                c.dispatch.threadgroups.0 as int,
                32,
                (s.params.intermediate_size as u32) as int,
            )
            &&& just_covers(c.dispatch.threadgroups.1 as int, 32, s.bucket_m as int)
            &&& c.dispatch.threadgroups.2 == 1
            &&& c.dispatch.threads_per_threadgroup == (128u32, 1u32, 1u32)
            &&& follows_tokens(c, s, MScaleAxis::Y)
            &&& c.bindings.len() == 8
            &&& slot_at(c, 0, out)
            &&& slot_at(c, 1, x_norm)
            &&& weight_at(
                s,
                c,
                2,
                WeightBundleKind::LinearLayer,
                WeightTensor::Weight,
                layer + s.layer_offset,
                0,
            )
            &&& weight_at(
                s,
                c,
                3,
                WeightBundleKind::LinearLayer,
                WeightTensor::AffineScales,
                layer + s.layer_offset,
                0,
            )
            &&& weight_at(
                s,
                c,
                4,
                WeightBundleKind::LinearLayer,
                WeightTensor::AffineBiases,
                layer + s.layer_offset,
                0,
            )
            &&& weight_at(
                s,
                c,
                5,
                WeightBundleKind::LinearLayer,
                WeightTensor::Weight,
                layer + s.layer_offset,
                1,
            )
            &&& weight_at(
                s,
                c,
                6,
                WeightBundleKind::LinearLayer,
                WeightTensor::AffineScales,
                layer + s.layer_offset,
                1,
            )
            &&& weight_at(
                s,
                c,
                7,
                WeightBundleKind::LinearLayer,
                WeightTensor::AffineBiases,
                layer + s.layer_offset,
                1,
            )
            &&& c.gemm_dims is None
        }),
{
    lemma_just_covers((s.params.intermediate_size as u32) as int, 32);
    lemma_just_covers(s.bucket_m as int, 32);
}

/// Decode attention takes, at arguments 0 to 5, the output slot, the query slot,
/// the used key lengths, the block table, and the caches of keys and of values of
/// its layer, one group per sequence and query head.
pub proof fn law_decode_attention_command(
    s: LowerSite,
    q: u32,
    out: u32,
    layer: u32,
    is_decode: bool,
)
    requires
        lowerable(s, Instruction::AttentionViaCache(q, out, layer, is_decode), None),
    ensures
        instruction_commands(
            s,
            Instruction::AttentionViaCache(q, out, layer, is_decode),
            None,
        ) matches Ok(cs) && cs.len() == 1 && ({
            let c = cs[0];
            &&& c.kernel == KernelId::AttentionViaCache
            &&& c.library == "attention"
            &&& c.function == for_dtype(
                s,
                "attention_via_cache_v2_f16_specialized",
                "attention_via_cache_v2_bf16_specialized",
            )
            &&& c.constants.len() == 7
            &&& uint_at(c, 0, 0, s.params.head_dim)
            &&& uint_at(c, 1, 1, s.params.num_q_heads)
            &&& uint_at(c, 2, 2, s.params.num_kv_heads)
            &&& float_at(c, 3, 3, s.params.attn_scale_bits)
            &&& uint_at(c, 4, 4, s.params.block_size)
            &&& uint_at(c, 5, 5, s.params.max_blocks_per_seq)
            &&& uint_at(c, 6, 6, s.params.blocks_per_chunk)
            &&& c.dispatch.threadgroups.0 == s.bucket_m
            &&& c.dispatch.threadgroups.1 == s.params.num_q_heads
            &&& c.dispatch.threadgroups.2 == 1
            &&& c.dispatch.threads_per_threadgroup == (1024u32, 1u32, 1u32)
            &&& follows_tokens(c, s, MScaleAxis::X)
            &&& c.bindings.len() == 6
            &&& slot_at(c, 0, out)
            &&& slot_at(c, 1, q)
            &&& runtime_at(c, 2, RuntimeBindingKind::SeqUsedK)
            &&& runtime_at(c, 3, RuntimeBindingKind::BlockTable)
            &&& runtime_at(
                c,
                4,
                RuntimeBindingKind::KvCacheK { layer: LayerId((layer + s.layer_offset) as u32) },
            )
            &&& runtime_at(
                c,
                5,
                RuntimeBindingKind::KvCacheV { layer: LayerId((layer + s.layer_offset) as u32) },
            )
            &&& c.gemm_dims is None
        }),
{
}

/// Prefill attention on the vector kernel takes, at arguments 0 to 6, the output
/// slot, the query slot, the sequence boundaries, the used key lengths, the block
/// table, and the caches of keys and of values of its layer, one group per query
/// head and token.
pub proof fn law_prefill_attention_command(
    s: LowerSite,
    q: u32,
    out: u32,
    layer: u32,
    interleaved: bool,
)
    requires
        lowerable(s, Instruction::AttentionPrefillPaged(q, out, layer, interleaved), None),
        !s.steel_attention,
    ensures
        instruction_commands(
            s,
            Instruction::AttentionPrefillPaged(q, out, layer, interleaved),
            None,
        ) matches Ok(cs) && cs.len() == 1 && ({
            let c = cs[0];
            &&& c.kernel == KernelId::AttentionPrefillSdpaPaged
            &&& c.library == "attention"
            &&& c.function == for_dtype(
                s,
                "attention_prefill_sdpa_v2_paged_f16_specialized",
                "attention_prefill_sdpa_v2_paged_bf16_specialized",
            )
            &&& c.constants.len() == 7
            &&& uint_at(c, 0, 0, s.params.head_dim)
            &&& uint_at(c, 1, 1, s.params.num_q_heads)
            &&& uint_at(c, 2, 2, s.params.num_kv_heads)
            &&& float_at(c, 3, 3, s.params.attn_scale_bits)
            &&& uint_at(c, 4, 4, s.params.block_size)
            &&& uint_at(c, 5, 5, s.params.max_blocks_per_seq)
            &&& uint_at(c, 6, 6, s.params.blocks_per_chunk)
            &&& c.dispatch.threadgroups.0 == s.params.num_q_heads
            &&& c.dispatch.threadgroups.1 == s.bucket_m
            &&& c.dispatch.threadgroups.2 == 1
            &&& c.dispatch.threads_per_threadgroup == (1024u32, 1u32, 1u32)
            &&& follows_tokens(c, s, MScaleAxis::Y)
            &&& c.bindings.len() == 7
            &&& slot_at(c, 0, out)
            &&& slot_at(c, 1, q)
            &&& runtime_at(c, 2, RuntimeBindingKind::CuSeqlensQ)
            &&& runtime_at(c, 3, RuntimeBindingKind::SeqUsedK)
            &&& runtime_at(c, 4, RuntimeBindingKind::BlockTable)
            &&& runtime_at(
                c,
                5,
                RuntimeBindingKind::KvCacheK { layer: LayerId((layer + s.layer_offset) as u32) },
            )
            &&& runtime_at(
                c,
                6,
                RuntimeBindingKind::KvCacheV { layer: LayerId((layer + s.layer_offset) as u32) },
            )
            &&& c.gemm_dims is None
        }),
{
}

/// Prefill attention on the steel kernel takes the same arguments, 32 query rows
/// per group, and carries debug mode 0 in slot 99.
pub proof fn law_steel_attention_command(
    s: LowerSite,
    q: u32,
    out: u32,
    layer: u32,
    interleaved: bool,
)
    requires
        lowerable(s, Instruction::AttentionPrefillPaged(q, out, layer, interleaved), None),
        s.steel_attention,
    ensures
        instruction_commands(
            s,
            Instruction::AttentionPrefillPaged(q, out, layer, interleaved),
            None,
        ) matches Ok(cs) && cs.len() == 1 && ({
            let c = cs[0];
            &&& c.kernel == KernelId::AttentionPrefillSdpaPaged
            &&& c.library == "attention_steel_paged"
            &&& c.function == for_dtype(
                s,
                "attention_steel_paged_f16_bq32_bk16_bd128_wm4_wn1_bs16",
                "attention_steel_paged_bf16_bq32_bk16_bd128_wm4_wn1_bs16",
            )
            &&& c.constants.len() == 8
            &&& uint_at(c, 0, 0, s.params.head_dim)
            &&& uint_at(c, 1, 1, s.params.num_q_heads)
            &&& uint_at(c, 2, 2, s.params.num_kv_heads)
            &&& float_at(c, 3, 3, s.params.attn_scale_bits)
            &&& uint_at(c, 4, 4, s.params.block_size)
            &&& uint_at(c, 5, 5, s.params.max_blocks_per_seq)
            &&& uint_at(c, 6, 6, s.params.blocks_per_chunk)
            &&& uint_at(c, 7, 99, 0)
            &&& just_covers(c.dispatch.threadgroups.0 as int, 32, s.bucket_m as int)
            &&& c.dispatch.threadgroups.1 == s.params.num_q_heads
            &&& c.dispatch.threadgroups.2 == 1
            &&& c.dispatch.threads_per_threadgroup == (128u32, 1u32, 1u32)
            &&& follows_tokens(c, s, MScaleAxis::X)
            &&& c.bindings.len() == 7
            &&& slot_at(c, 0, out)
            &&& slot_at(c, 1, q)
            &&& runtime_at(c, 2, RuntimeBindingKind::CuSeqlensQ)
            &&& runtime_at(c, 3, RuntimeBindingKind::SeqUsedK)
            &&& runtime_at(c, 4, RuntimeBindingKind::BlockTable)
            &&& runtime_at(
                c,
                5,
                RuntimeBindingKind::KvCacheK { layer: LayerId((layer + s.layer_offset) as u32) },
            )
            &&& runtime_at(
                c,
                6,
                RuntimeBindingKind::KvCacheV { layer: LayerId((layer + s.layer_offset) as u32) },
            )
            &&& c.gemm_dims is None
        }),
{
    lemma_just_covers(s.bucket_m as int, 32);
}

/// The residual add updates the residual in place, one thread per element.
pub proof fn law_add_command(
    s: LowerSite,
    delta: u32,
    residual: u32,
)
    requires
        lowerable(s, Instruction::Add(delta, residual), None),
    ensures
        instruction_commands(
            s,
            Instruction::Add(delta, residual),
            None,
        ) matches Ok(cs) && cs.len() == 1 && ({
            let c = cs[0];
            &&& c.kernel == KernelId::Add
            &&& c.library == "elementwise"
            &&& c.function == for_dtype(
                s,
                "residual_add_f16_specialized",
                "residual_add_bf16_specialized",
            )
            &&& c.constants.len() == 0
            &&& just_covers(
                c.dispatch.threadgroups.0 as int,
                256,
                s.bucket_m * (s.params.q_size as u32),
            )
            &&& c.dispatch.threadgroups.1 == 1
            &&& c.dispatch.threadgroups.2 == 1
            &&& c.dispatch.threads_per_threadgroup == (256u32, 1u32, 1u32)
            &&& follows_tokens(c, s, MScaleAxis::X)
            &&& c.bindings.len() == 2
            &&& slot_at(c, 0, residual)
            &&& slot_at(c, 1, delta)
            &&& c.gemm_dims is None
        }),
{
    lemma_just_covers(s.bucket_m * (s.params.q_size as u32), 256);
}

/// The scalar product reads its input slot and writes its output slot, one thread
/// per element.
pub proof fn law_scalar_mul_command(
    s: LowerSite,
    input: u32,
    out: u32,
    scale: u32,
)
    requires
        lowerable(s, Instruction::ScalarMul(input, out, scale), None),
    ensures
        instruction_commands(
            s,
            Instruction::ScalarMul(input, out, scale),
            None,
        ) matches Ok(cs) && cs.len() == 1 && ({
            let c = cs[0];
            &&& c.kernel == KernelId::ScalarMul
            &&& c.library == "elementwise"
            &&& c.function == for_dtype(
                s,
                "scalar_mul_f16_specialized",
                "scalar_mul_bf16_specialized",
            )
            &&& c.constants.len() == 0
            &&& just_covers(
                c.dispatch.threadgroups.0 as int,
                256,
                s.bucket_m * (s.params.q_size as u32),
            )
            &&& c.dispatch.threadgroups.1 == 1
            &&& c.dispatch.threadgroups.2 == 1
            &&& c.dispatch.threads_per_threadgroup == (256u32, 1u32, 1u32)
            &&& follows_tokens(c, s, MScaleAxis::X)
            &&& c.bindings.len() == 2
            &&& slot_at(c, 0, out)
            &&& slot_at(c, 1, input)
            &&& c.gemm_dims is None
        }),
{
    lemma_just_covers(s.bucket_m * (s.params.q_size as u32), 256);
}

/// The bias add takes its input, the bias and its output in this order. The bias
/// of a quantized layer is its linear bias.
pub proof fn law_bias_add_command(
    s: LowerSite,
    input: u32,
    out: u32,
    layer: u32,
    n: u32,
    is_affine: bool,
)
    requires
        lowerable(s, Instruction::MetalBiasAdd(input, out, layer, n, is_affine), None),
    ensures
        instruction_commands(
            s,
            Instruction::MetalBiasAdd(input, out, layer, n, is_affine),
            None,
        ) matches Ok(cs) && cs.len() == 1 && ({
            let c = cs[0];
            &&& c.kernel == KernelId::BiasAdd
            &&& c.library == "elementwise"
            &&& c.function == for_dtype(s, "bias_add_f16_specialized", "bias_add_bf16_specialized")
            &&& c.constants.len() == 1
            &&& uint_at(c, 0, 0, n)
            &&& just_covers(c.dispatch.threadgroups.0 as int, 256, s.bucket_m * n)
            &&& c.dispatch.threadgroups.1 == 1
            &&& c.dispatch.threadgroups.2 == 1
            &&& c.dispatch.threads_per_threadgroup == (256u32, 1u32, 1u32)
            &&& follows_tokens(c, s, MScaleAxis::X)
            &&& c.bindings.len() == 3
            &&& slot_at(c, 0, input)
            &&& weight_at(
                s,
                c,
                1,
                WeightBundleKind::LinearLayer,
                if is_affine { WeightTensor::AffineLinearBias } else { WeightTensor::Bias },
                layer + s.layer_offset,
                0,
            )
            &&& slot_at(c, 2, out)
            &&& c.gemm_dims is None
        }),
{
    lemma_just_covers(s.bucket_m * n, 256);
}

} // verus!
