//! Which arena slots a lowered tape touches.
use crate::commands::{
    add_command, affine_embed_command, attention_prefill_paged_command,
    attention_via_cache_command, bias_add_command, embed_command,
    fused_add_rms_norm_command, fused_gate_up_silu_mul_command,
    fused_qkv_rope_cache_command, gather_last_token_view, gemm_command, qmm_t_command,
    qmv_command, rms_norm_command, rope_append_command, scalar_mul_command,
    scatter_first_to_last_row_view, silu_mul_command, splitk_command, splitk_reduce_command,
    synth_gate_up_silu_mul_command, synth_mlp_pre_down_command, synth_pre_attn_command,
    LowerSite,
};
use crate::ids::LayerId;
use crate::instruction::{Instruction, KernelChoice, QmmTChoice, QmmTKernel, QmvChoice};
use crate::lowered::{Binding, CommandView, MScaleAxis, MScaling, MetalDtype, WeightLocator};
use crate::lowering::{
    instruction_commands, joined_tape, slice_applies, slice_commands, Inputs, Produced, Step,
    TapeSite,
};
use vstd::prelude::*;

verus! {

/// Every arena slot that the command binds is below `bound`.
pub open spec fn slots_below(c: CommandView, bound: int) -> bool {
    forall|i: int|
        0 <= i < c.bindings.len() ==> match #[trigger] c.bindings[i] {
            Binding::ArenaSlot { slot, .. } => slot < bound,
            _ => true,
        }
}

/// Every arena slot that the commands bind is below `bound`.
pub open spec fn all_slots_below(cs: Seq<CommandView>, bound: int) -> bool {
    forall|i: int| 0 <= i < cs.len() ==> slots_below(#[trigger] cs[i], bound)
}

/// Every arena slot that the instruction's kernels take is below `bound`.
pub open spec fn instruction_slots_below(inst: Instruction, bound: int) -> bool {
    match inst {
        Instruction::Embed(out) => out < bound,
        Instruction::RmsNorm(input, out, _) => input < bound && out < bound,
        Instruction::FusedAddRmsNorm(delta, residual, _) => delta < bound && residual < bound,
        Instruction::Gemm(input, out, _, _, _) => input < bound && out < bound,
        Instruction::SiluMul(gate, up, out) => gate < bound && up < bound && out < bound,
        Instruction::AffineEmbed(out, _, _) => out < bound,
        Instruction::FusedGateUpSiluMul(input, out, _) => input < bound && out < bound,
        Instruction::RopeAppend(_, _, _, q_out, k_out, v_out, _, _) => q_out < bound
            && k_out < bound && v_out < bound,
        Instruction::FusedQkvRopeCache(input, out, _, _, _) => input < bound && out < bound,
        Instruction::SynthPreAttn(residual, delta, q_out, _, _, _, _, _) => residual < bound
            && delta < bound && q_out < bound,
        Instruction::SynthMlpPreDown(residual, delta, out, _, _, _, _) => residual < bound
            && delta < bound && out < bound,
        Instruction::SynthGateUpSiluMul(x_norm, out, _, _, _, _) => x_norm < bound && out < bound,
        Instruction::AttentionViaCache(q, out, _, _) => q < bound && out < bound,
        Instruction::AttentionPrefillPaged(q, out, _, _) => q < bound && out < bound,
        Instruction::Add(delta, residual) => delta < bound && residual < bound,
        Instruction::ScalarMul(input, out, _) => input < bound && out < bound,
        Instruction::MetalBiasAdd(input, out, _, _, _) => input < bound && out < bound,
        Instruction::AffineQmm(input, out, _, _, _, _, _, _) => input < bound && out < bound,
        _ => true,
    }
}

proof fn lemma_embed_command(s: LowerSite, out: u32, bound: int)
    requires
        out < bound,
    ensures
        slots_below(embed_command(s, out), bound),
{
}

proof fn lemma_rms_norm_command(s: LowerSite, input: u32, out: u32, layer: u32, bound: int)
    requires
        input < bound,
        out < bound,
    ensures
        slots_below(rms_norm_command(s, input, out, layer), bound),
{
}

proof fn lemma_fused_add_rms_norm_command(
    s: LowerSite,
    delta: u32,
    residual: u32,
    layer: u32,
    bound: int,
)
    requires
        delta < bound,
        residual < bound,
    ensures
        slots_below(fused_add_rms_norm_command(s, delta, residual, layer), bound),
{
}

proof fn lemma_gemm_command(
    s: LowerSite,
    input: u32,
    out: u32,
    layer: u32,
    n: u32,
    k: u32,
    bound: int,
)
    requires
        input < bound,
        out < bound,
    ensures
        slots_below(gemm_command(s, input, out, layer, n, k), bound),
{
}

proof fn lemma_qmm_t_command(
    s: LowerSite,
    choice: QmmTChoice,
    input: u32,
    out: u32,
    layer: u32,
    n: u32,
    k: u32,
    bound: int,
)
    requires
        input < bound,
        out < bound,
    ensures
        slots_below(qmm_t_command(s, choice, input, out, layer, n, k), bound),
{
}

proof fn lemma_splitk_command(
    s: LowerSite,
    choice: QmmTChoice,
    k_partition_size: u32,
    input: u32,
    layer: u32,
    n: u32,
    k: u32,
    bound: int,
)
    requires
        input < bound,
    ensures
        slots_below(splitk_command(s, choice, k_partition_size, input, layer, n, k), bound),
{
}

proof fn lemma_splitk_reduce_command(
    s: LowerSite,
    function: &'static str,
    split_k: u32,
    out: u32,
    n: u32,
    bound: int,
)
    requires
        out < bound,
    ensures
        slots_below(splitk_reduce_command(s, function, split_k, out, n), bound),
{
}

proof fn lemma_silu_mul_command(s: LowerSite, gate: u32, up: u32, out: u32, bound: int)
    requires
        gate < bound,
        up < bound,
        out < bound,
    ensures
        slots_below(silu_mul_command(s, gate, up, out), bound),
{
}

proof fn lemma_affine_embed_command(s: LowerSite, out: u32, group_size: u32, bound: int)
    requires
        out < bound,
    ensures
        slots_below(affine_embed_command(s, out, group_size), bound),
{
}

proof fn lemma_fused_gate_up_silu_mul_command(
    s: LowerSite,
    input: u32,
    out: u32,
    layer: u32,
    bound: int,
)
    requires
        input < bound,
        out < bound,
    ensures
        slots_below(fused_gate_up_silu_mul_command(s, input, out, layer), bound),
{
}

proof fn lemma_rope_append_command(
    s: LowerSite,
    q_out: u32,
    k_out: u32,
    v_out: u32,
    layer: u32,
    bound: int,
)
    requires
        q_out < bound,
        k_out < bound,
        v_out < bound,
    ensures
        slots_below(rope_append_command(s, q_out, k_out, v_out, layer), bound),
{
}

proof fn lemma_fused_qkv_rope_cache_command(
    s: LowerSite,
    input: u32,
    out: u32,
    layer: u32,
    bound: int,
)
    requires
        input < bound,
        out < bound,
    ensures
        slots_below(fused_qkv_rope_cache_command(s, input, out, layer), bound),
{
}

proof fn lemma_synth_pre_attn_command(
    s: LowerSite,
    residual: u32,
    delta: u32,
    q_out: u32,
    layer: u32,
    symbol: &'static str,
    bias: bool,
    bound: int,
)
    requires
        residual < bound,
        delta < bound,
        q_out < bound,
    ensures
        slots_below(synth_pre_attn_command(s, residual, delta, q_out, layer, symbol, bias), bound),
{
}

proof fn lemma_synth_mlp_pre_down_command(
    s: LowerSite,
    residual: u32,
    delta: u32,
    out: u32,
    layer: u32,
    symbol: &'static str,
    bound: int,
)
    requires
        residual < bound,
        delta < bound,
        out < bound,
    ensures
        slots_below(synth_mlp_pre_down_command(s, residual, delta, out, layer, symbol), bound),
{
}

proof fn lemma_synth_gate_up_silu_mul_command(
    s: LowerSite,
    x_norm: u32,
    out: u32,
    layer: u32,
    symbol: &'static str,
    bound: int,
)
    requires
        x_norm < bound,
        out < bound,
    ensures
        slots_below(synth_gate_up_silu_mul_command(s, x_norm, out, layer, symbol), bound),
{
}

proof fn lemma_attention_via_cache_command(s: LowerSite, q: u32, out: u32, layer: u32, bound: int)
    requires
        q < bound,
        out < bound,
    ensures
        slots_below(attention_via_cache_command(s, q, out, layer), bound),
{
}

proof fn lemma_attention_prefill_paged_command(
    s: LowerSite,
    q: u32,
    out: u32,
    layer: u32,
    bound: int,
)
    requires
        q < bound,
        out < bound,
    ensures
        slots_below(attention_prefill_paged_command(s, q, out, layer), bound),
{
}

proof fn lemma_add_command(s: LowerSite, delta: u32, residual: u32, bound: int)
    requires
        delta < bound,
        residual < bound,
    ensures
        slots_below(add_command(s, delta, residual), bound),
{
}

proof fn lemma_scalar_mul_command(s: LowerSite, input: u32, out: u32, bound: int)
    requires
        input < bound,
        out < bound,
    ensures
        slots_below(scalar_mul_command(s, input, out), bound),
{
}

proof fn lemma_bias_add_command(
    s: LowerSite,
    input: u32,
    out: u32,
    layer: u32,
    n: u32,
    is_affine: bool,
    bound: int,
)
    requires
        input < bound,
        out < bound,
    ensures
        slots_below(bias_add_command(s, input, out, layer, n, is_affine), bound),
{
}

proof fn lemma_qmv_command(
    choice: QmvChoice,
    scaling: Option<MScaling>,
    input: u32,
    out: u32,
    layer: LayerId,
    locator: WeightLocator,
    n: u32,
    k: u32,
    bound: int,
)
    requires
        input < bound,
        out < bound,
    ensures
        slots_below(qmv_command(choice, scaling, input, out, layer, locator, n, k), bound),
{
}

/// Commands touch only the arena slots of their instruction.
pub proof fn law_commands_touch_their_slots(
    s: LowerSite,
    inst: Instruction,
    choice: Option<KernelChoice>,
    bound: int,
)
    requires
        instruction_slots_below(inst, bound),
    ensures
        instruction_commands(s, inst, choice) matches Ok(cs) ==> all_slots_below(cs, bound),
{
    match inst {
        Instruction::Embed(out) => {
            lemma_embed_command(s, out, bound);
        },
        Instruction::RmsNorm(input, out, layer) => {
            lemma_rms_norm_command(s, input, out, layer, bound);
        },
        Instruction::FusedAddRmsNorm(delta, residual, layer) => {
            lemma_fused_add_rms_norm_command(s, delta, residual, layer, bound);
        },
        Instruction::Gemm(input, out, layer, n, k) => {
            lemma_gemm_command(s, input, out, layer, n, k, bound);
        },
        Instruction::SiluMul(gate, up, out) => {
            lemma_silu_mul_command(s, gate, up, out, bound);
        },
        Instruction::AffineEmbed(out, group_size, _) => {
            lemma_affine_embed_command(s, out, group_size, bound);
        },
        Instruction::FusedGateUpSiluMul(input, out, layer) => {
            lemma_fused_gate_up_silu_mul_command(s, input, out, layer, bound);
        },
        Instruction::RopeAppend(_, _, _, q_out, k_out, v_out, layer, _) => {
            lemma_rope_append_command(s, q_out, k_out, v_out, layer, bound);
        },
        Instruction::FusedQkvRopeCache(input, out, layer, _, _) => {
            lemma_fused_qkv_rope_cache_command(s, input, out, layer, bound);
        },
        Instruction::SynthPreAttn(residual, delta, q_out, layer, _, _, symbol, bias) => {
            lemma_synth_pre_attn_command(s, residual, delta, q_out, layer, symbol, bias, bound);
        },
        Instruction::SynthMlpPreDown(residual, delta, out, layer, _, _, symbol) => {
            lemma_synth_mlp_pre_down_command(s, residual, delta, out, layer, symbol, bound);
        },
        Instruction::SynthGateUpSiluMul(x_norm, out, layer, _, _, symbol) => {
            lemma_synth_gate_up_silu_mul_command(s, x_norm, out, layer, symbol, bound);
        },
        Instruction::AttentionViaCache(q, out, layer, _) => {
            lemma_attention_via_cache_command(s, q, out, layer, bound);
        },
        Instruction::AttentionPrefillPaged(q, out, layer, _) => {
            lemma_attention_prefill_paged_command(s, q, out, layer, bound);
        },
        Instruction::Add(delta, residual) => {
            lemma_add_command(s, delta, residual, bound);
        },
        Instruction::ScalarMul(input, out, _) => {
            lemma_scalar_mul_command(s, input, out, bound);
        },
        Instruction::MetalBiasAdd(input, out, layer, n, is_affine) => {
            lemma_bias_add_command(s, input, out, layer, n, is_affine, bound);
        },
        Instruction::AffineQmm(input, out, layer, n, k, _, _, _) => {
            match choice {
                Some(KernelChoice::Qmv(c)) => {
                    let scaling = s.scaling(MScaleAxis::X);
                    let l = s.layer(layer);
                    lemma_qmv_command(c, scaling, input, out, l, s.locator(0), n, k, bound);
                },
                Some(KernelChoice::QmmT(c)) => match c.kernel {
                    QmmTKernel::SplitK { split_k, k_partition_size } => {
                        lemma_splitk_command(s, c, k_partition_size, input, layer, n, k, bound);
                        lemma_splitk_reduce_command(s, c.reduce_function, split_k, out, n, bound);
                    },
                    _ => {
                        lemma_qmm_t_command(s, c, input, out, layer, n, k, bound);
                    },
                },
                None => {},
            }
        },
        _ => {},
    }
}

/// A lowered tape touches only the arena slots of its instructions: if these
/// are all below the tape's slot count, an arena of that many slots serves it.
pub proof fn law_tape_stays_in_its_arena(inputs: Inputs, steps: Seq<Step>, bound: int)
    requires
        forall|k: int|
            0 <= k < steps.len() ==> (#[trigger] steps[k] matches Step::Lower { index, .. }
                ==> instruction_slots_below(inputs.instructions[index], bound)),
    ensures
        inputs.walk(steps) matches Ok(p) ==> all_slots_below(p.commands, bound),
    decreases steps.len(),
{
    if steps.len() > 0 {
        let front = steps.drop_last();
        assert forall|k: int| 0 <= k < front.len() implies (
        #[trigger] front[k] matches Step::Lower { index, .. } ==> instruction_slots_below(inputs.instructions[index], bound)) by {
            assert(front[k] == steps[k]);
        }
        law_tape_stays_in_its_arena(inputs, front, bound);
        let last = steps[steps.len() - 1];
        lemma_step_slots(inputs, last, bound);
    }
}

/// One step touches only the arena slots of its instruction.
proof fn lemma_step_slots(inputs: Inputs, step: Step, bound: int)
    requires
        step matches Step::Lower { index, .. } ==> instruction_slots_below(
            inputs.instructions[index],
            bound,
        ),
    ensures
        inputs.step_result(step) matches Ok(p) ==> all_slots_below(p.commands, bound),
{
    reveal(Inputs::step_result);
    if let Step::Lower { index, layer_offset } = step {
        law_commands_touch_their_slots(
            inputs.site.at(index as usize, layer_offset as u32),
            inputs.instructions[index],
            inputs.choice(index),
            bound,
        );
    }
}

proof fn lemma_slice_slots(
    dtype: MetalDtype,
    input: u32,
    out: u32,
    n: u32,
    k: u32,
    bound: int,
)
    requires
        input < bound,
        out < bound,
    ensures
        slots_below(gather_last_token_view(dtype, input, k), bound),
        slots_below(scatter_first_to_last_row_view(dtype, out, n), bound),
{
}

/// Joining a backbone and a head, sliced or not, adds no arena slot.
pub proof fn law_joined_tape_stays_in_its_arena(
    site: TapeSite,
    num_arena_slots: u32,
    backbone: Produced,
    lm_head: Seq<Instruction>,
    lm_head_tape_index: u32,
    head: Produced,
    slice: Option<QmvChoice>,
    bound: int,
)
    requires
        all_slots_below(backbone.commands, bound),
        all_slots_below(head.commands, bound),
        forall|i: int|
            0 <= i < lm_head.len() ==> instruction_slots_below(#[trigger] lm_head[i], bound),
    ensures
        all_slots_below(
            joined_tape(
                site,
                num_arena_slots,
                backbone,
                lm_head,
                lm_head_tape_index,
                head,
                slice,
            ).commands,
            bound,
        ),
{
    if slice_applies(site.bucket_m, lm_head, head.commands, slice) {
        assert(instruction_slots_below(lm_head[0], bound));
        if let Instruction::AffineQmm(input, out, layer, n, k, _, _, _) = lm_head[0] {
            lemma_slice_slots(site.params.metal_dtype, input, out, n, k, bound);
            lemma_qmv_command(
                slice->0,
                None,
                input,
                out,
                LayerId(layer),
                WeightLocator { bucket: lm_head_tape_index, op_idx: 0, slot: 0 },
                n,
                k,
                bound,
            );
            assert(all_slots_below(
                slice_commands(site.params, lm_head_tape_index, lm_head[0], slice->0),
                bound,
            ));
        }
    }
}

} // verus!
