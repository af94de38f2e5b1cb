//! What the iterations of a loop have in common, and how they differ.
use crate::commands::{
    add_command, affine_embed_command, attention_prefill_paged_command,
    attention_via_cache_command, bias_add_command, embed_command, fused_add_rms_norm_command,
    fused_gate_up_silu_mul_command, fused_qkv_rope_cache_command, gemm_command, qmm_t_command,
    qmv_command, rms_norm_command, rope_append_command, scalar_mul_command, silu_mul_command,
    splitk_command, splitk_reduce_command, synth_gate_up_silu_mul_command,
    synth_mlp_pre_down_command, synth_pre_attn_command, LowerSite,
};
use crate::ids::LayerId;
use crate::instruction::{Instruction, KernelChoice, QmmTChoice, QmmTKernel, QmvChoice};
use crate::lowered::{Binding, CommandView, MScaleAxis, RuntimeBindingKind};
use crate::lowering::{instruction_commands, lowerable, Inputs, Step};
use vstd::prelude::*;

verus! {

/// The layer that takes the place of `layer` when iteration `from` becomes
/// iteration `to`.
pub open spec fn moved_layer(layer: LayerId, from: u32, to: u32) -> LayerId {
    LayerId((layer.0 - from + to) as u32)
}

/// A binding of iteration `from`, as iteration `to` has it: weights and caches
/// are those of the layer that takes the place of theirs. Embedding tables are
/// not layered, and nothing else changes.
pub open spec fn moved(binding: Binding, from: u32, to: u32) -> Binding {
    match binding {
        Binding::Weight { kind, which, layer, locator, binding_index } => {
            if kind is Embedding || kind is AffineQuantEmbedding {
                binding
            } else {
                Binding::Weight {
                    kind,
                    which,
                    layer: moved_layer(layer, from, to),
                    locator,
                    binding_index,
                }
            }
        },
        Binding::Runtime { kind: RuntimeBindingKind::KvCacheK { layer }, binding_index } => {
            Binding::Runtime {
                kind: RuntimeBindingKind::KvCacheK { layer: moved_layer(layer, from, to) },
                binding_index,
            }
        },
        Binding::Runtime { kind: RuntimeBindingKind::KvCacheV { layer }, binding_index } => {
            Binding::Runtime {
                kind: RuntimeBindingKind::KvCacheV { layer: moved_layer(layer, from, to) },
                binding_index,
            }
        },
        _ => binding,
    }
}

/// A command of iteration `from`, as iteration `to` has it.
pub open spec fn moved_command(c: CommandView, from: u32, to: u32) -> CommandView {
    CommandView { bindings: c.bindings.map_values(|b: Binding| moved(b, from, to)), ..c }
}

/// Commands of iteration `from`, as iteration `to` has them.
pub open spec fn moved_commands(cs: Seq<CommandView>, from: u32, to: u32) -> Seq<CommandView> {
    cs.map_values(|c: CommandView| moved_command(c, from, to))
}

/// The sites differ in their iteration at most.
spec fn same_place(s: LowerSite, t: LowerSite) -> bool {
    t == (LowerSite { layer_offset: t.layer_offset, ..s })
}

/// `q` is at `t` what `p` is at `s`.
spec fn moves(s: LowerSite, t: LowerSite, p: CommandView, q: CommandView) -> bool {
    q == moved_command(p, s.layer_offset, t.layer_offset)
}

proof fn lemma_embed_moves(s: LowerSite, t: LowerSite, out: u32)
    requires
        same_place(s, t),
    ensures
        moves(s, t, embed_command(s, out), embed_command(t, out)),
{
    let p = embed_command(s, out);
    let q = embed_command(t, out);
    assert(q.bindings =~= moved_command(p, s.layer_offset, t.layer_offset).bindings);
}

proof fn lemma_rms_norm_moves(s: LowerSite, t: LowerSite, input: u32, out: u32, layer: u32)
    requires
        same_place(s, t),
        s.layer_fits(layer),
        t.layer_fits(layer),
    ensures
        moves(s, t, rms_norm_command(s, input, out, layer), rms_norm_command(t, input, out, layer)),
{
    let p = rms_norm_command(s, input, out, layer);
    let q = rms_norm_command(t, input, out, layer);
    assert(q.bindings =~= moved_command(p, s.layer_offset, t.layer_offset).bindings);
}

proof fn lemma_fused_add_rms_norm_moves(
    s: LowerSite,
    t: LowerSite,
    delta: u32,
    residual: u32,
    layer: u32,
)
    requires
        same_place(s, t),
        s.layer_fits(layer),
        t.layer_fits(layer),
    ensures
        moves(
            s,
            t,
            fused_add_rms_norm_command(s, delta, residual, layer),
            fused_add_rms_norm_command(t, delta, residual, layer),
        ),
{
    let p = fused_add_rms_norm_command(s, delta, residual, layer);
    let q = fused_add_rms_norm_command(t, delta, residual, layer);
    assert(q.bindings =~= moved_command(p, s.layer_offset, t.layer_offset).bindings);
}

proof fn lemma_gemm_moves(
    s: LowerSite,
    t: LowerSite,
    input: u32,
    out: u32,
    layer: u32,
    n: u32,
    k: u32,
)
    requires
        same_place(s, t),
        s.layer_fits(layer),
        t.layer_fits(layer),
    ensures
        moves(
            s,
            t,
            gemm_command(s, input, out, layer, n, k),
            gemm_command(t, input, out, layer, n, k),
        ),
{
    let p = gemm_command(s, input, out, layer, n, k);
    let q = gemm_command(t, input, out, layer, n, k);
    assert(q.bindings =~= moved_command(p, s.layer_offset, t.layer_offset).bindings);
}

proof fn lemma_qmm_t_moves(
    s: LowerSite,
    t: LowerSite,
    choice: QmmTChoice,
    input: u32,
    out: u32,
    layer: u32,
    n: u32,
    k: u32,
)
    requires
        same_place(s, t),
        s.layer_fits(layer),
        t.layer_fits(layer),
    ensures
        moves(
            s,
            t,
            qmm_t_command(s, choice, input, out, layer, n, k),
            qmm_t_command(t, choice, input, out, layer, n, k),
        ),
{
    let p = qmm_t_command(s, choice, input, out, layer, n, k);
    let q = qmm_t_command(t, choice, input, out, layer, n, k);
    assert(q.bindings =~= moved_command(p, s.layer_offset, t.layer_offset).bindings);
}

proof fn lemma_splitk_moves(
    s: LowerSite,
    t: LowerSite,
    choice: QmmTChoice,
    k_partition_size: u32,
    input: u32,
    layer: u32,
    n: u32,
    k: u32,
)
    requires
        same_place(s, t),
        s.layer_fits(layer),
        t.layer_fits(layer),
    ensures
        moves(
            s,
            t,
            splitk_command(s, choice, k_partition_size, input, layer, n, k),
            splitk_command(t, choice, k_partition_size, input, layer, n, k),
        ),
{
    let p = splitk_command(s, choice, k_partition_size, input, layer, n, k);
    let q = splitk_command(t, choice, k_partition_size, input, layer, n, k);
    assert(q.bindings =~= moved_command(p, s.layer_offset, t.layer_offset).bindings);
}

proof fn lemma_splitk_reduce_moves(
    s: LowerSite,
    t: LowerSite,
    function: &'static str,
    split_k: u32,
    out: u32,
    n: u32,
)
    requires
        same_place(s, t),
    ensures
        moves(
            s,
            t,
            splitk_reduce_command(s, function, split_k, out, n),
            splitk_reduce_command(t, function, split_k, out, n),
        ),
{
    let p = splitk_reduce_command(s, function, split_k, out, n);
    let q = splitk_reduce_command(t, function, split_k, out, n);
    assert(q.bindings =~= moved_command(p, s.layer_offset, t.layer_offset).bindings);
}

proof fn lemma_silu_mul_moves(s: LowerSite, t: LowerSite, gate: u32, up: u32, out: u32)
    requires
        same_place(s, t),
    ensures
        moves(s, t, silu_mul_command(s, gate, up, out), silu_mul_command(t, gate, up, out)),
{
    let p = silu_mul_command(s, gate, up, out);
    let q = silu_mul_command(t, gate, up, out);
    assert(q.bindings =~= moved_command(p, s.layer_offset, t.layer_offset).bindings);
}

proof fn lemma_affine_embed_moves(s: LowerSite, t: LowerSite, out: u32, group_size: u32)
    requires
        same_place(s, t),
    ensures
        moves(
            s,
            t,
            affine_embed_command(s, out, group_size),
            affine_embed_command(t, out, group_size),
        ),
{
    let p = affine_embed_command(s, out, group_size);
    let q = affine_embed_command(t, out, group_size);
    assert(q.bindings =~= moved_command(p, s.layer_offset, t.layer_offset).bindings);
}

proof fn lemma_fused_gate_up_silu_mul_moves(
    s: LowerSite,
    t: LowerSite,
    input: u32,
    out: u32,
    layer: u32,
)
    requires
        same_place(s, t),
        s.layer_fits(layer),
        t.layer_fits(layer),
    ensures
        moves(
            s,
            t,
            fused_gate_up_silu_mul_command(s, input, out, layer),
            fused_gate_up_silu_mul_command(t, input, out, layer),
        ),
{
    let p = fused_gate_up_silu_mul_command(s, input, out, layer);
    let q = fused_gate_up_silu_mul_command(t, input, out, layer);
    assert(q.bindings =~= moved_command(p, s.layer_offset, t.layer_offset).bindings);
}

proof fn lemma_rope_append_moves(
    s: LowerSite,
    t: LowerSite,
    q_out: u32,
    k_out: u32,
    v_out: u32,
    layer: u32,
)
    requires
        same_place(s, t),
        s.layer_fits(layer),
        t.layer_fits(layer),
    ensures
        moves(
            s,
            t,
            rope_append_command(s, q_out, k_out, v_out, layer),
            rope_append_command(t, q_out, k_out, v_out, layer),
        ),
{
    let p = rope_append_command(s, q_out, k_out, v_out, layer);
    let q = rope_append_command(t, q_out, k_out, v_out, layer);
    assert(q.bindings =~= moved_command(p, s.layer_offset, t.layer_offset).bindings);
}

proof fn lemma_fused_qkv_rope_cache_moves(
    s: LowerSite,
    t: LowerSite,
    input: u32,
    out: u32,
    layer: u32,
)
    requires
        same_place(s, t),
        s.layer_fits(layer),
        t.layer_fits(layer),
    ensures
        moves(
            s,
            t,
            fused_qkv_rope_cache_command(s, input, out, layer),
            fused_qkv_rope_cache_command(t, input, out, layer),
        ),
{
    let p = fused_qkv_rope_cache_command(s, input, out, layer);
    let q = fused_qkv_rope_cache_command(t, input, out, layer);
    assert(q.bindings =~= moved_command(p, s.layer_offset, t.layer_offset).bindings);
}

proof fn lemma_synth_pre_attn_moves(
    s: LowerSite,
    t: LowerSite,
    residual: u32,
    delta: u32,
    q_out: u32,
    layer: u32,
    symbol: &'static str,
    bias: bool,
)
    requires
        same_place(s, t),
        s.layer_fits(layer),
        t.layer_fits(layer),
    ensures
        moves(
            s,
            t,
            synth_pre_attn_command(s, residual, delta, q_out, layer, symbol, bias),
            synth_pre_attn_command(t, residual, delta, q_out, layer, symbol, bias),
        ),
{
    let p = synth_pre_attn_command(s, residual, delta, q_out, layer, symbol, bias);
    let q = synth_pre_attn_command(t, residual, delta, q_out, layer, symbol, bias);
    assert(q.bindings =~= moved_command(p, s.layer_offset, t.layer_offset).bindings);
}

proof fn lemma_synth_mlp_pre_down_moves(
    s: LowerSite,
    t: LowerSite,
    residual: u32,
    delta: u32,
    out: u32,
    layer: u32,
    symbol: &'static str,
)
    requires
        same_place(s, t),
        s.layer_fits(layer),
        t.layer_fits(layer),
    ensures
        moves(
            s,
            t,
            synth_mlp_pre_down_command(s, residual, delta, out, layer, symbol),
            synth_mlp_pre_down_command(t, residual, delta, out, layer, symbol),
        ),
{
    let p = synth_mlp_pre_down_command(s, residual, delta, out, layer, symbol);
    let q = synth_mlp_pre_down_command(t, residual, delta, out, layer, symbol);
    assert(q.bindings =~= moved_command(p, s.layer_offset, t.layer_offset).bindings);
}

proof fn lemma_synth_gate_up_silu_mul_moves(
    s: LowerSite,
    t: LowerSite,
    x_norm: u32,
    out: u32,
    layer: u32,
    symbol: &'static str,
)
    requires
        same_place(s, t),
        s.layer_fits(layer),
        t.layer_fits(layer),
    ensures
        moves(
            s,
            t,
            synth_gate_up_silu_mul_command(s, x_norm, out, layer, symbol),
            synth_gate_up_silu_mul_command(t, x_norm, out, layer, symbol),
        ),
{
    let p = synth_gate_up_silu_mul_command(s, x_norm, out, layer, symbol);
    let q = synth_gate_up_silu_mul_command(t, x_norm, out, layer, symbol);
    assert(q.bindings =~= moved_command(p, s.layer_offset, t.layer_offset).bindings);
}

proof fn lemma_attention_via_cache_moves(s: LowerSite, t: LowerSite, q: u32, out: u32, layer: u32)
    requires
        same_place(s, t),
        s.layer_fits(layer),
        t.layer_fits(layer),
    ensures
        moves(
            s,
            t,
            attention_via_cache_command(s, q, out, layer),
            attention_via_cache_command(t, q, out, layer),
        ),
{
    let p = attention_via_cache_command(s, q, out, layer);
    let q = attention_via_cache_command(t, q, out, layer);
    assert(q.bindings =~= moved_command(p, s.layer_offset, t.layer_offset).bindings);
}

proof fn lemma_attention_prefill_paged_moves(
    s: LowerSite,
    t: LowerSite,
    q: u32,
    out: u32,
    layer: u32,
)
    requires
        same_place(s, t),
        s.layer_fits(layer),
        t.layer_fits(layer),
    ensures
        moves(
            s,
            t,
            attention_prefill_paged_command(s, q, out, layer),
            attention_prefill_paged_command(t, q, out, layer),
        ),
{
    let p = attention_prefill_paged_command(s, q, out, layer);
    let q = attention_prefill_paged_command(t, q, out, layer);
    assert(q.bindings =~= moved_command(p, s.layer_offset, t.layer_offset).bindings);
}

proof fn lemma_add_moves(s: LowerSite, t: LowerSite, delta: u32, residual: u32)
    requires
        same_place(s, t),
    ensures
        moves(s, t, add_command(s, delta, residual), add_command(t, delta, residual)),
{
    let p = add_command(s, delta, residual);
    let q = add_command(t, delta, residual);
    assert(q.bindings =~= moved_command(p, s.layer_offset, t.layer_offset).bindings);
}

proof fn lemma_scalar_mul_moves(s: LowerSite, t: LowerSite, input: u32, out: u32)
    requires
        same_place(s, t),
    ensures
        moves(s, t, scalar_mul_command(s, input, out), scalar_mul_command(t, input, out)),
{
    let p = scalar_mul_command(s, input, out);
    let q = scalar_mul_command(t, input, out);
    assert(q.bindings =~= moved_command(p, s.layer_offset, t.layer_offset).bindings);
}

proof fn lemma_bias_add_moves(
    s: LowerSite,
    t: LowerSite,
    input: u32,
    out: u32,
    layer: u32,
    n: u32,
    is_affine: bool,
)
    requires
        same_place(s, t),
        s.layer_fits(layer),
        t.layer_fits(layer),
    ensures
        moves(
            s,
            t,
            bias_add_command(s, input, out, layer, n, is_affine),
            bias_add_command(t, input, out, layer, n, is_affine),
        ),
{
    let p = bias_add_command(s, input, out, layer, n, is_affine);
    let q = bias_add_command(t, input, out, layer, n, is_affine);
    assert(q.bindings =~= moved_command(p, s.layer_offset, t.layer_offset).bindings);
}

proof fn lemma_qmv_moves(
    s: LowerSite,
    t: LowerSite,
    choice: QmvChoice,
    input: u32,
    out: u32,
    layer: u32,
    n: u32,
    k: u32,
)
    requires
        same_place(s, t),
        s.layer_fits(layer),
        t.layer_fits(layer),
    ensures
        ({
            let x = s.scaling(MScaleAxis::X);
            let at = s.locator(0);
            moves(
                s,
                t,
                qmv_command(choice, x, input, out, s.layer(layer), at, n, k),
                qmv_command(choice, x, input, out, t.layer(layer), at, n, k),
            )
        }),
{
    let x = s.scaling(MScaleAxis::X);
    let at = s.locator(0);
    let p = qmv_command(choice, x, input, out, s.layer(layer), at, n, k);
    let q = qmv_command(choice, x, input, out, t.layer(layer), at, n, k);
    assert(q.bindings =~= moved_command(p, s.layer_offset, t.layer_offset).bindings);
}

/// The commands of an instruction in another iteration.
proof fn lemma_commands_move(s: LowerSite, t: LowerSite, inst: Instruction, choice: Option<
    KernelChoice,
>)
    requires
        lowerable(s, inst, choice),
        lowerable(t, inst, choice),
        same_place(s, t),
    ensures
        instruction_commands(s, inst, choice) matches Ok(p) ==> (instruction_commands(
            t,
            inst,
            choice,
        ) matches Ok(q) && q == moved_commands(p, s.layer_offset, t.layer_offset)),
{
    match inst {
        Instruction::Embed(out) => {
            lemma_embed_moves(s, t, out);
        },
        Instruction::RmsNorm(input, out, layer) => {
            lemma_rms_norm_moves(s, t, input, out, layer);
        },
        Instruction::FusedAddRmsNorm(delta, residual, layer) => {
            lemma_fused_add_rms_norm_moves(s, t, delta, residual, layer);
        },
        Instruction::Gemm(input, out, layer, n, k) => {
            lemma_gemm_moves(s, t, input, out, layer, n, k);
        },
        Instruction::SiluMul(gate, up, out) => {
            lemma_silu_mul_moves(s, t, gate, up, out);
        },
        Instruction::AffineEmbed(out, group_size, _) => {
            lemma_affine_embed_moves(s, t, out, group_size);
        },
        Instruction::FusedGateUpSiluMul(input, out, layer) => {
            lemma_fused_gate_up_silu_mul_moves(s, t, input, out, layer);
        },
        Instruction::RopeAppend(_, _, _, q_out, k_out, v_out, layer, _) => {
            lemma_rope_append_moves(s, t, q_out, k_out, v_out, layer);
        },
        Instruction::FusedQkvRopeCache(input, out, layer, _, _) => {
            lemma_fused_qkv_rope_cache_moves(s, t, input, out, layer);
        },
        Instruction::SynthPreAttn(residual, delta, q_out, layer, _, _, symbol, bias) => {
            lemma_synth_pre_attn_moves(s, t, residual, delta, q_out, layer, symbol, bias);
        },
        Instruction::SynthMlpPreDown(residual, delta, out, layer, _, _, symbol) => {
            lemma_synth_mlp_pre_down_moves(s, t, residual, delta, out, layer, symbol);
        },
        Instruction::SynthGateUpSiluMul(x_norm, out, layer, _, _, symbol) => {
            lemma_synth_gate_up_silu_mul_moves(s, t, x_norm, out, layer, symbol);
        },
        Instruction::AttentionViaCache(q, out, layer, _) => {
            lemma_attention_via_cache_moves(s, t, q, out, layer);
        },
        Instruction::AttentionPrefillPaged(q, out, layer, _) => {
            lemma_attention_prefill_paged_moves(s, t, q, out, layer);
        },
        Instruction::Add(delta, residual) => {
            lemma_add_moves(s, t, delta, residual);
        },
        Instruction::ScalarMul(input, out, _) => {
            lemma_scalar_mul_moves(s, t, input, out);
        },
        Instruction::MetalBiasAdd(input, out, layer, n, is_affine) => {
            lemma_bias_add_moves(s, t, input, out, layer, n, is_affine);
        },
        Instruction::AffineQmm(input, out, layer, n, k, _, _, _) => {
            match choice {
                Some(KernelChoice::Qmv(c)) => {
                    lemma_qmv_moves(s, t, c, input, out, layer, n, k);
                },
                Some(KernelChoice::QmmT(c)) => match c.kernel {
                    QmmTKernel::SplitK { split_k, k_partition_size } => {
                        lemma_splitk_moves(s, t, c, k_partition_size, input, layer, n, k);
                        lemma_splitk_reduce_moves(s, t, c.reduce_function, split_k, out, n);
                    },
                    _ => {
                        lemma_qmm_t_moves(s, t, c, input, out, layer, n, k);
                    },
                },
                None => {},
            }
        },
        _ => {},
    }
    if let Ok(p) = instruction_commands(s, inst, choice) {
        let q = instruction_commands(t, inst, choice)->Ok_0;
        assert(q =~= moved_commands(p, s.layer_offset, t.layer_offset));
    }
}

/// Iterations of a loop differ in their layers only: every weight and cache
/// moves by the distance of the iterations, and everything else, embedding
/// tables, slots, locators and argument indices with it, is the same.
pub proof fn law_iterations_shift_layers(inputs: Inputs, index: int, a: u32, b: u32)
    requires
        inputs.step_defined(Step::Lower { index, layer_offset: a as int }),
        inputs.step_defined(Step::Lower { index, layer_offset: b as int }),
    ensures
        inputs.step_result(Step::Lower { index, layer_offset: a as int }) matches Ok(p) ==> (
        inputs.step_result(Step::Lower { index, layer_offset: b as int }) matches Ok(q)
            && q.commands == moved_commands(p.commands, a, b)),
{
    reveal(Inputs::step_result);
    let s = inputs.site.at(index as usize, a);
    let t = inputs.site.at(index as usize, b);
    lemma_commands_move(s, t, inputs.instructions[index], inputs.choice(index));
}

} // verus!
