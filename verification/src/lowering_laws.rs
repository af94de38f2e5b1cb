//! Laws of the lowering pass.
use crate::arith::{ceil_div, lemma_ceil_div_covers};
use crate::commands::{
    add_command, affine_embed_command, attention_prefill_paged_command,
    attention_via_cache_command, bias_add_command, embed_command,
    fused_add_rms_norm_command, fused_gate_up_silu_mul_command,
    fused_qkv_rope_cache_command, gemm_command, qmm_t_command, qmv_command,
    rms_norm_command, rope_append_command, scalar_mul_command, silu_mul_command,
    splitk_bytes, splitk_command, splitk_reduce_command, synth_gate_up_silu_mul_command,
    synth_mlp_pre_down_command, synth_pre_attn_command, LowerSite,
};
use crate::ids::LayerId;
use crate::instruction::{Instruction, KernelChoice, QmmTChoice, QmmTKernel, QmvChoice};
use crate::lowered::{
    gate_open, gate_open_in_step, Binding, CommandView, LoweringError, MScaleAxis, MScaling,
};
use crate::lowering::{
    instruction_commands, iteration_steps, joined_tape, lemma_walk_parallel,
    loop_steps, lowerable, plain_tape, query_of, schedule, slice_applies, Inputs, Produced,
    Step, TapeSite,
};
use vstd::prelude::*;

verus! {

// ---- Shape of the commands ----

/// Argument indices run 0, 1, 2, ...: no argument is left out or bound twice.
pub open spec fn arguments_in_order(c: CommandView) -> bool {
    forall|i: int| 0 <= i < c.bindings.len() ==> (#[trigger] c.bindings[i]).index() == i
}

/// Constant slots rise strictly: none is filled twice.
pub open spec fn constants_in_order(c: CommandView) -> bool {
    forall|i: int, j: int|
        0 <= i < j < c.constants.len() ==> (#[trigger] c.constants[i]).const_slot() < (
        #[trigger] c.constants[j]).const_slot()
}

/// All weights and caches that the command reads belong to `layer`.
pub open spec fn reads_layer(c: CommandView, layer: LayerId) -> bool {
    forall|i: int|
        0 <= i < c.bindings.len() ==> match (#[trigger] c.bindings[i]).layer() {
            Some(l) => l == layer,
            None => true,
        }
}

/// All weight locators name the given tape and instruction.
pub open spec fn located_at(c: CommandView, tape: u32, op: u32) -> bool {
    forall|i: int|
        0 <= i < c.bindings.len() ==> match #[trigger] c.bindings[i] {
            Binding::Weight { locator, .. } => locator.bucket == tape && locator.op_idx == op,
            _ => true,
        }
}

/// The command reads or writes the shared split-K scratch buffer.
pub open spec fn uses_scratch(c: CommandView) -> bool {
    exists|i: int| 0 <= i < c.bindings.len() && (#[trigger] c.bindings[i]) is Scratch
}

/// A grid that follows the number of tokens was computed for this bucket.
pub open spec fn scales_from(c: CommandView, bucket_m: u32) -> bool {
    c.dispatch.m_scaling matches Some(m) ==> m.bucket_m.0 == bucket_m
}

/// The properties together.
pub open spec fn well_formed(c: CommandView, s: LowerSite, layer: LayerId) -> bool {
    &&& arguments_in_order(c)
    &&& constants_in_order(c)
    &&& reads_layer(c, layer)
    &&& located_at(c, s.tape_index, s.index as u32)
    &&& scales_from(c, s.bucket_m)
}

/// The layer that an instruction reads in its iteration. Embedding tables are
/// not layered.
pub open spec fn instruction_layer(s: LowerSite, inst: Instruction) -> LayerId {
    match inst {
        Instruction::RmsNorm(_, _, layer) => s.layer(layer),
        Instruction::FusedAddRmsNorm(_, _, layer) => s.layer(layer),
        Instruction::Gemm(_, _, layer, _, _) => s.layer(layer),
        Instruction::AffineQmm(_, _, layer, _, _, _, _, _) => s.layer(layer),
        Instruction::FusedGateUpSiluMul(_, _, layer) => s.layer(layer),
        Instruction::RopeAppend(_, _, _, _, _, _, layer, _) => s.layer(layer),
        Instruction::FusedQkvRopeCache(_, _, layer, _, _) => s.layer(layer),
        Instruction::SynthPreAttn(_, _, _, layer, _, _, _, _) => s.layer(layer),
        Instruction::SynthMlpPreDown(_, _, _, layer, _, _, _) => s.layer(layer),
        Instruction::SynthGateUpSiluMul(_, _, layer, _, _, _) => s.layer(layer),
        Instruction::AttentionViaCache(_, _, layer, _) => s.layer(layer),
        Instruction::AttentionPrefillPaged(_, _, layer, _) => s.layer(layer),
        Instruction::MetalBiasAdd(_, _, layer, _, _) => s.layer(layer),
        _ => LayerId(0),
    }
}

proof fn lemma_embed_command(s: LowerSite, out: u32)
    ensures
        well_formed(embed_command(s, out), s, LayerId(0)),
        !uses_scratch(embed_command(s, out)),
{
}

proof fn lemma_rms_norm_command(s: LowerSite, input: u32, out: u32, layer: u32)
    ensures
        well_formed(rms_norm_command(s, input, out, layer), s, s.layer(layer)),
        !uses_scratch(rms_norm_command(s, input, out, layer)),
{
}

proof fn lemma_fused_add_rms_norm_command(s: LowerSite, delta: u32, residual: u32, layer: u32)
    ensures
        well_formed(fused_add_rms_norm_command(s, delta, residual, layer), s, s.layer(layer)),
        !uses_scratch(fused_add_rms_norm_command(s, delta, residual, layer)),
{
}

proof fn lemma_gemm_command(s: LowerSite, input: u32, out: u32, layer: u32, n: u32, k: u32)
    ensures
        well_formed(gemm_command(s, input, out, layer, n, k), s, s.layer(layer)),
        !uses_scratch(gemm_command(s, input, out, layer, n, k)),
{
}

proof fn lemma_qmm_t_command(
    s: LowerSite,
    choice: QmmTChoice,
    input: u32,
    out: u32,
    layer: u32,
    n: u32,
    k: u32,
)
    ensures
        well_formed(qmm_t_command(s, choice, input, out, layer, n, k), s, s.layer(layer)),
        !uses_scratch(qmm_t_command(s, choice, input, out, layer, n, k)),
{
}

proof fn lemma_splitk_command(
    s: LowerSite,
    choice: QmmTChoice,
    k_partition_size: u32,
    input: u32,
    layer: u32,
    n: u32,
    k: u32,
)
    ensures
        well_formed(
            splitk_command(s, choice, k_partition_size, input, layer, n, k),
            s,
            s.layer(layer),
        ),
        uses_scratch(splitk_command(s, choice, k_partition_size, input, layer, n, k)),
{
    assert(splitk_command(s, choice, k_partition_size, input, layer, n, k).bindings[4] is Scratch);
}

proof fn lemma_splitk_reduce_command(
    s: LowerSite,
    function: &'static str,
    split_k: u32,
    out: u32,
    n: u32,
    l: LayerId,
)
    ensures
        well_formed(splitk_reduce_command(s, function, split_k, out, n), s, l),
        uses_scratch(splitk_reduce_command(s, function, split_k, out, n)),
{
    assert(splitk_reduce_command(s, function, split_k, out, n).bindings[1] is Scratch);
}

proof fn lemma_silu_mul_command(s: LowerSite, gate: u32, up: u32, out: u32, l: LayerId)
    ensures
        well_formed(silu_mul_command(s, gate, up, out), s, l),
        !uses_scratch(silu_mul_command(s, gate, up, out)),
{
}

proof fn lemma_affine_embed_command(s: LowerSite, out: u32, group_size: u32)
    ensures
        well_formed(affine_embed_command(s, out, group_size), s, LayerId(0)),
        !uses_scratch(affine_embed_command(s, out, group_size)),
{
}

proof fn lemma_fused_gate_up_silu_mul_command(s: LowerSite, input: u32, out: u32, layer: u32)
    ensures
        well_formed(fused_gate_up_silu_mul_command(s, input, out, layer), s, s.layer(layer)),
        !uses_scratch(fused_gate_up_silu_mul_command(s, input, out, layer)),
{
}

proof fn lemma_rope_append_command(s: LowerSite, q_out: u32, k_out: u32, v_out: u32, layer: u32)
    ensures
        well_formed(rope_append_command(s, q_out, k_out, v_out, layer), s, s.layer(layer)),
        !uses_scratch(rope_append_command(s, q_out, k_out, v_out, layer)),
{
}

proof fn lemma_fused_qkv_rope_cache_command(s: LowerSite, input: u32, out: u32, layer: u32)
    ensures
        well_formed(fused_qkv_rope_cache_command(s, input, out, layer), s, s.layer(layer)),
        !uses_scratch(fused_qkv_rope_cache_command(s, input, out, layer)),
{
}

proof fn lemma_synth_pre_attn_command(
    s: LowerSite,
    residual: u32,
    delta: u32,
    q_out: u32,
    layer: u32,
    symbol: &'static str,
    bias: bool,
)
    ensures
        well_formed(
            synth_pre_attn_command(s, residual, delta, q_out, layer, symbol, bias),
            s,
            s.layer(layer),
        ),
        !uses_scratch(synth_pre_attn_command(s, residual, delta, q_out, layer, symbol, bias)),
{
}

proof fn lemma_synth_mlp_pre_down_command(
    s: LowerSite,
    residual: u32,
    delta: u32,
    out: u32,
    layer: u32,
    symbol: &'static str,
)
    ensures
        well_formed(
            synth_mlp_pre_down_command(s, residual, delta, out, layer, symbol),
            s,
            s.layer(layer),
        ),
        !uses_scratch(synth_mlp_pre_down_command(s, residual, delta, out, layer, symbol)),
{
}

proof fn lemma_synth_gate_up_silu_mul_command(
    s: LowerSite,
    x_norm: u32,
    out: u32,
    layer: u32,
    symbol: &'static str,
)
    ensures
        well_formed(
            synth_gate_up_silu_mul_command(s, x_norm, out, layer, symbol),
            s,
            s.layer(layer),
        ),
        !uses_scratch(synth_gate_up_silu_mul_command(s, x_norm, out, layer, symbol)),
{
}

proof fn lemma_attention_via_cache_command(s: LowerSite, q: u32, out: u32, layer: u32)
    ensures
        well_formed(attention_via_cache_command(s, q, out, layer), s, s.layer(layer)),
        !uses_scratch(attention_via_cache_command(s, q, out, layer)),
{
}

proof fn lemma_attention_prefill_paged_command(s: LowerSite, q: u32, out: u32, layer: u32)
    ensures
        well_formed(attention_prefill_paged_command(s, q, out, layer), s, s.layer(layer)),
        !uses_scratch(attention_prefill_paged_command(s, q, out, layer)),
{
}

proof fn lemma_add_command(s: LowerSite, delta: u32, residual: u32, l: LayerId)
    ensures
        well_formed(add_command(s, delta, residual), s, l),
        !uses_scratch(add_command(s, delta, residual)),
{
}

proof fn lemma_scalar_mul_command(s: LowerSite, input: u32, out: u32, l: LayerId)
    ensures
        well_formed(scalar_mul_command(s, input, out), s, l),
        !uses_scratch(scalar_mul_command(s, input, out)),
{
}

proof fn lemma_bias_add_command(
    s: LowerSite,
    input: u32,
    out: u32,
    layer: u32,
    n: u32,
    is_affine: bool,
)
    ensures
        well_formed(bias_add_command(s, input, out, layer, n, is_affine), s, s.layer(layer)),
        !uses_scratch(bias_add_command(s, input, out, layer, n, is_affine)),
{
}

proof fn lemma_qmv_command(
    s: LowerSite,
    choice: QmvChoice,
    input: u32,
    out: u32,
    layer: u32,
    n: u32,
    k: u32,
)
    ensures
        well_formed(
            qmv_command(
                choice,
                s.scaling(MScaleAxis::X),
                input,
                out,
                s.layer(layer),
                s.locator(0),
                n,
                k,
            ),
            s,
            s.layer(layer),
        ),
        !uses_scratch(
            qmv_command(
                choice,
                s.scaling(MScaleAxis::X),
                input,
                out,
                s.layer(layer),
                s.locator(0),
                n,
                k,
            ),
        ),
{
}

/// The instruction is a quantized product that goes to a split-K kernel.
pub open spec fn splits_k(inst: Instruction, choice: Option<KernelChoice>) -> bool {
    inst is AffineQmm && (choice matches Some(KernelChoice::QmmT(c)) && c.kernel is SplitK)
}

/// Every command binds its arguments in order, fills its constant slots in
/// order, reads the weights and caches of the one layer that the instruction
/// names in its iteration, locates its weights at that instruction, and scales
/// its grid from the tape's bucket. The scratch buffer is bound by the
/// commands of split-K products and by no other.
pub proof fn law_commands_are_well_formed(
    s: LowerSite,
    inst: Instruction,
    choice: Option<KernelChoice>,
)
    requires
        lowerable(s, inst, choice),
    ensures
        instruction_commands(s, inst, choice) matches Ok(cs) ==> forall|i: int|
            0 <= i < cs.len() ==> {
                &&& well_formed(#[trigger] cs[i], s, instruction_layer(s, inst))
                &&& uses_scratch(cs[i]) <==> splits_k(inst, choice)
            },
{
    match inst {
        Instruction::Embed(out) => {
            lemma_embed_command(s, out);
        },
        Instruction::RmsNorm(input, out, layer) => {
            lemma_rms_norm_command(s, input, out, layer);
        },
        Instruction::FusedAddRmsNorm(delta, residual, layer) => {
            lemma_fused_add_rms_norm_command(s, delta, residual, layer);
        },
        Instruction::Gemm(input, out, layer, n, k) => {
            lemma_gemm_command(s, input, out, layer, n, k);
        },
        Instruction::SiluMul(gate, up, out) => {
            lemma_silu_mul_command(s, gate, up, out, LayerId(0));
        },
        Instruction::AffineEmbed(out, group_size, _) => {
            lemma_affine_embed_command(s, out, group_size);
        },
        Instruction::FusedGateUpSiluMul(input, out, layer) => {
            lemma_fused_gate_up_silu_mul_command(s, input, out, layer);
        },
        Instruction::RopeAppend(_, _, _, q_out, k_out, v_out, layer, _) => {
            lemma_rope_append_command(s, q_out, k_out, v_out, layer);
        },
        Instruction::FusedQkvRopeCache(input, out, layer, _, _) => {
            lemma_fused_qkv_rope_cache_command(s, input, out, layer);
        },
        Instruction::SynthPreAttn(residual, delta, q_out, layer, _, _, symbol, bias) => {
            lemma_synth_pre_attn_command(s, residual, delta, q_out, layer, symbol, bias);
        },
        Instruction::SynthMlpPreDown(residual, delta, out, layer, _, _, symbol) => {
            lemma_synth_mlp_pre_down_command(s, residual, delta, out, layer, symbol);
        },
        Instruction::SynthGateUpSiluMul(x_norm, out, layer, _, _, symbol) => {
            lemma_synth_gate_up_silu_mul_command(s, x_norm, out, layer, symbol);
        },
        Instruction::AttentionViaCache(q, out, layer, _) => {
            lemma_attention_via_cache_command(s, q, out, layer);
        },
        Instruction::AttentionPrefillPaged(q, out, layer, _) => {
            lemma_attention_prefill_paged_command(s, q, out, layer);
        },
        Instruction::Add(delta, residual) => {
            lemma_add_command(s, delta, residual, LayerId(0));
        },
        Instruction::ScalarMul(input, out, _) => {
            lemma_scalar_mul_command(s, input, out, LayerId(0));
        },
        Instruction::MetalBiasAdd(input, out, layer, n, is_affine) => {
            lemma_bias_add_command(s, input, out, layer, n, is_affine);
        },
        Instruction::AffineQmm(input, out, layer, n, k, _, _, _) => {
            match choice {
                Some(KernelChoice::Qmv(c)) => {
                    lemma_qmv_command(s, c, input, out, layer, n, k);
                },
                Some(KernelChoice::QmmT(c)) => match c.kernel {
                    QmmTKernel::SplitK { split_k, k_partition_size } => {
                        lemma_splitk_command(s, c, k_partition_size, input, layer, n, k);
                        lemma_splitk_reduce_command(
                            s,
                            c.reduce_function,
                            split_k,
                            out,
                            n,
                            s.layer(layer),
                        );
                    },
                    _ => {
                        lemma_qmm_t_command(s, c, input, out, layer, n, k);
                    },
                },
                None => {},
            }
        },
        _ => {},
    }
}

/// A quantized product is lowerable with any choice of the kind that its query
/// asks for, and in any iteration of a loop it asks for the same kind.
pub proof fn law_answered_products_are_lowerable(
    s: LowerSite,
    inst: Instruction,
    choice: KernelChoice,
    other: LowerSite,
)
    requires
        inst is AffineQmm,
        s.dtype_wired(),
        s.layer_fits(inst->AffineQmm_2),
        query_of(s, inst)->0 is Qmv <==> choice is Qmv,
        other == (LowerSite { layer_offset: other.layer_offset, ..s }),
    ensures
        query_of(s, inst) is Some,
        lowerable(s, inst, Some(choice)),
        query_of(other, inst) == query_of(s, inst),
{
}

// ---- Loops ----

/// A loop of `count` iterations over `body_len` instructions takes
/// `count * body_len` steps, and step `iter * body_len + j` lowers the body's
/// instruction `j` with layer offset `iter`.
pub proof fn law_loop_unrolls(body_start: int, body_len: int, iter: int, count: int)
    requires
        body_len >= 0,
        0 <= iter <= count,
    ensures
        loop_steps(body_start, body_len, iter, count).len() == (count - iter) * body_len,
        forall|i: int, j: int|
            #![trigger i * body_len + j]
            0 <= i < count - iter && 0 <= j < body_len ==> loop_steps(
                body_start,
                body_len,
                iter,
                count,
            )[i * body_len + j] == (Step::Lower {
                index: body_start + j,
                layer_offset: iter + i,
            }),
    decreases count - iter,
{
    if iter < count {
        law_loop_unrolls(body_start, body_len, iter + 1, count);
        let head = iteration_steps(body_start, body_len, iter);
        let tail = loop_steps(body_start, body_len, iter + 1, count);
        assert((count - iter) * body_len == body_len + (count - (iter + 1)) * body_len)
            by (nonlinear_arith);
        assert forall|i: int, j: int|
            #![trigger i * body_len + j]
            0 <= i < count - iter && 0 <= j < body_len implies loop_steps(
            body_start,
            body_len,
            iter,
            count,
        )[i * body_len + j] == (Step::Lower {
            index: body_start + j,
            layer_offset: iter + i,
        }) by {
            if i == 0 {
                assert(i * body_len + j == j) by (nonlinear_arith)
                    requires
                        i == 0,
                ;
                assert((head + tail)[j] == head[j]);
            } else {
                let at = (i - 1) * body_len + j;
                assert(i * body_len + j == body_len + at) by (nonlinear_arith)
                    requires
                        at == (i - 1) * body_len + j,
                ;
                assert(0 <= at < tail.len()) by (nonlinear_arith)
                    requires
                        at == (i - 1) * body_len + j,
                        0 <= i - 1 < count - (iter + 1),
                        0 <= j < body_len,
                        tail.len() == (count - (iter + 1)) * body_len,
                ;
                assert((head + tail)[body_len + at] == tail[at]);
            }
        }
    } else {
        assert((count - iter) * body_len == 0) by (nonlinear_arith)
            requires
                count == iter,
        ;
    }
}

/// Commands that differ in their bindings at most.
pub open spec fn same_but_for_bindings(a: Seq<CommandView>, b: Seq<CommandView>) -> bool {
    &&& a.len() == b.len()
    &&& forall|i: int|
        0 <= i < a.len() ==> (#[trigger] a[i]) == (CommandView { bindings: a[i].bindings, ..b[i] })
            && a[i].bindings.len() == b[i].bindings.len()
}

/// The iterations of a loop repeat the same commands on other layers: kernels,
/// grids, constants and barrier flags of an instruction do not depend on the
/// iteration, and neither does the scratch it asks for.
pub proof fn law_iterations_repeat(inputs: Inputs, index: int, a: int, b: int)
    ensures
        match (
            inputs.step_result(Step::Lower { index, layer_offset: a }),
            inputs.step_result(Step::Lower { index, layer_offset: b }),
        ) {
            (Ok(p), Ok(q)) => {
                &&& same_but_for_bindings(p.commands, q.commands)
                &&& p.barriers == q.barriers
                &&& p.scratch == q.scratch
            },
            (Err(e), Err(f)) => e == f,
            _ => false,
        },
{
    reveal(Inputs::step_result);
    let s = inputs.site.at(index as usize, a as u32);
    let t = inputs.site.at(index as usize, b as u32);
    let inst = inputs.instructions[index];
    let choice = inputs.choice(index);
    if let Ok(p) = instruction_commands(s, inst, choice) {
        if let Ok(q) = instruction_commands(t, inst, choice) {
            assert(p.len() == q.len());
            let flags = |i: int| i > 0 || inputs.flag(index);
            assert(Seq::new(p.len(), flags) =~= Seq::new(q.len(), flags));
        }
    }
}

// ---- Walks ----

/// What a walk produces is what its first part produces followed by what its
/// second part produces; an error in the first part hides the second.
pub proof fn law_walk_concatenates(inputs: Inputs, first: Seq<Step>, second: Seq<Step>)
    ensures
        inputs.walk(first + second) == match inputs.walk(first) {
            Ok(p) => match inputs.walk(second) {
                Ok(q) => Ok(p.plus(q)),
                Err(e) => Err(e),
            },
            Err(e) => Err(e),
        },
    decreases second.len(),
{
    if second.len() == 0 {
        assert(first + second =~= first);
        if let Ok(p) = inputs.walk(first) {
            assert(p.commands + Seq::empty() =~= p.commands);
            assert(p.barriers + Seq::empty() =~= p.barriers);
        }
    } else {
        law_walk_concatenates(inputs, first, second.drop_last());
        assert((first + second).drop_last() =~= first + second.drop_last());
        if let Ok(p) = inputs.walk(first) {
            if let Ok(q) = inputs.walk(second.drop_last()) {
                if let Ok(r) = inputs.step_result(second.last()) {
                    assert((p.commands + q.commands) + r.commands =~= p.commands + (q.commands
                        + r.commands));
                    assert((p.barriers + q.barriers) + r.barriers =~= p.barriers + (q.barriers
                        + r.barriers));
                }
            }
        }
    }
}

/// Instructions that only rebind slots produce nothing.
pub proof fn law_metadata_only_is_dropped(inputs: Inputs, steps: Seq<Step>)
    requires
        forall|k: int|
            0 <= k < steps.len() ==> (#[trigger] steps[k] matches Step::Lower { index, .. } && (
            inputs.instructions[index] is Reshape || inputs.instructions[index] is Alias
                || inputs.instructions[index] is Free)),
    ensures
        inputs.walk(steps) == Ok::<Produced, LoweringError>(Produced::none()),
    decreases steps.len(),
{
    reveal(Inputs::step_result);
    if steps.len() > 0 {
        assert forall|k: int| 0 <= k < steps.drop_last().len() implies (
        #[trigger] steps.drop_last()[k] matches Step::Lower { index, .. } && (
        inputs.instructions[index] is Reshape || inputs.instructions[index] is Alias
            || inputs.instructions[index] is Free)) by {
            assert(steps.drop_last()[k] == steps[k]);
        }
        law_metadata_only_is_dropped(inputs, steps.drop_last());
        let last = steps[steps.len() - 1];
        assert(inputs.step_result(last) is Ok);
        let p = inputs.step_result(last)->Ok_0;
        assert(Produced::none().commands + p.commands =~= Seq::empty());
        assert(Produced::none().barriers + p.barriers =~= Seq::empty());
    }
}

/// The scratch size of a walk is the largest that any step asks for: no step
/// asks for more, and it is 0 or some step asks for exactly that much.
pub proof fn law_scratch_is_the_maximum(inputs: Inputs, steps: Seq<Step>)
    requires
        inputs.walk(steps) is Ok,
    ensures
        forall|k: int|
            0 <= k < steps.len() ==> (inputs.step_result(#[trigger] steps[k]) matches Ok(p)
                && p.scratch <= inputs.walk(steps)->Ok_0.scratch),
        inputs.walk(steps)->Ok_0.scratch == 0 || exists|k: int|
            0 <= k < steps.len() && inputs.step_result(#[trigger] steps[k])->Ok_0.scratch
                == inputs.walk(steps)->Ok_0.scratch,
    decreases steps.len(),
{
    reveal(Inputs::step_result);
    if steps.len() > 0 {
        let front = steps.drop_last();
        law_scratch_is_the_maximum(inputs, front);
        let total = inputs.walk(steps)->Ok_0.scratch;
        let before = inputs.walk(front)->Ok_0.scratch;
        let n = steps.len() - 1;
        assert forall|k: int| 0 <= k < steps.len() implies (inputs.step_result(
            #[trigger] steps[k],
        ) matches Ok(p) && p.scratch <= total) by {
            if k < n {
                assert(front[k] == steps[k]);
            }
        }
        if total != 0 {
            if total == inputs.step_result(steps[n])->Ok_0.scratch {
            } else {
                let k = choose|k: int|
                    0 <= k < front.len() && inputs.step_result(#[trigger] front[k])->Ok_0.scratch
                        == before;
                assert(front[k] == steps[k]);
            }
        }
    }
}

/// The scratch of a split-K product is its number of partials times two
/// bytes, where that fits.
pub proof fn law_scratch_is_exact(split_k: u32, m: u32, n: u32)
    requires
        split_k * m * n * 2 <= u32::MAX,
    ensures
        splitk_bytes(split_k, m, n) == split_k * m * n * 2,
{
    let parts = split_k * m;
    if n == 0 {
        assert(forall|x: int| #[trigger] (x * n) == 0) by (nonlinear_arith)
            requires
                n == 0,
        ;
    } else {
        assert(0 <= parts <= parts * n * 2 && 0 <= parts * n <= parts * n * 2)
            by (nonlinear_arith)
            requires
                parts == split_k * m,
                split_k >= 0,
                m >= 0,
                n > 0,
        ;
    }
}

/// A tape in which no quantized product goes to a split-K kernel needs no
/// scratch.
pub proof fn law_no_split_k_no_scratch(inputs: Inputs, steps: Seq<Step>)
    requires
        inputs.walk(steps) is Ok,
        forall|k: int|
            0 <= k < steps.len() ==> (#[trigger] steps[k] matches Step::Lower { index, .. }
                ==> !splits_k(inputs.instructions[index], inputs.choice(index))),
    ensures
        inputs.walk(steps)->Ok_0.scratch == 0,
    decreases steps.len(),
{
    reveal(Inputs::step_result);
    if steps.len() > 0 {
        let front = steps.drop_last();
        assert forall|k: int| 0 <= k < front.len() implies (
        #[trigger] front[k] matches Step::Lower { index, .. } ==> !splits_k(inputs.instructions[index], inputs.choice(index))) by {
            assert(front[k] == steps[k]);
        }
        law_no_split_k_no_scratch(inputs, front);
        assert(steps[steps.len() - 1] == steps.last());
    }
}

/// A lowered tape has one barrier flag and one gate per command.
pub proof fn law_tape_is_parallel(inputs: Inputs, bucket_m: u32, num_arena_slots: u32)
    ensures
        inputs.result() matches Ok(p) ==> plain_tape(bucket_m, num_arena_slots, p).wf(),
{
    lemma_walk_parallel(inputs, schedule(inputs.instructions));
}

/// A backbone and a head joined in one tape have one barrier flag and one gate
/// per command.
pub proof fn law_joined_tape_is_parallel(
    site: TapeSite,
    num_arena_slots: u32,
    backbone: Produced,
    lm_head: Seq<Instruction>,
    lm_head_tape_index: u32,
    head: Produced,
    slice: Option<QmvChoice>,
)
    requires
        backbone.commands.len() == backbone.barriers.len(),
        head.commands.len() == head.barriers.len(),
    ensures
        joined_tape(
            site,
            num_arena_slots,
            backbone,
            lm_head,
            lm_head_tape_index,
            head,
            slice,
        ).wf(),
{
}

/// The commands of the backbone come first and always run; without a sliced
/// head the commands of the head follow and always run too.
pub proof fn law_backbone_always_runs(
    site: TapeSite,
    num_arena_slots: u32,
    backbone: Produced,
    lm_head: Seq<Instruction>,
    lm_head_tape_index: u32,
    head: Produced,
    slice: Option<QmvChoice>,
)
    ensures
        ({
            let t = joined_tape(
                site,
                num_arena_slots,
                backbone,
                lm_head,
                lm_head_tape_index,
                head,
                slice,
            );
            &&& t.commands.take(backbone.commands.len() as int) == backbone.commands
            &&& forall|i: int| 0 <= i < backbone.commands.len() ==> t.runtime_gate[i] is None
            &&& slice is None ==> t.commands == backbone.commands + head.commands && forall|i: int|
                0 <= i < t.runtime_gate.len() ==> t.runtime_gate[i] is None
        }),
{
    let t = joined_tape(
        site,
        num_arena_slots,
        backbone,
        lm_head,
        lm_head_tape_index,
        head,
        slice,
    );
    assert(t.commands.take(backbone.commands.len() as int) =~= backbone.commands);
}

/// Where the head is sliced, every forward without speculative tokens runs
/// exactly one of its two forms: a single sequence runs the three commands of
/// the slice and not the full head, several sequences run the full head and
/// not the slice.
pub proof fn law_one_head_runs(
    site: TapeSite,
    num_arena_slots: u32,
    backbone: Produced,
    lm_head: Seq<Instruction>,
    lm_head_tape_index: u32,
    head: Produced,
    slice: Option<QmvChoice>,
    num_seqs: int,
)
    requires
        slice_applies(site.bucket_m, lm_head, head.commands, slice),
        num_seqs >= 1,
    ensures
        ({
            let t = joined_tape(
                site,
                num_arena_slots,
                backbone,
                lm_head,
                lm_head_tape_index,
                head,
                slice,
            );
            let n = backbone.commands.len() as int;
            &&& t.commands.len() == n + 4
            &&& t.commands[n + 3] == head.commands[0]
            &&& gate_open(t.runtime_gate[n], num_seqs) == (num_seqs == 1)
            &&& gate_open(t.runtime_gate[n + 1], num_seqs) == (num_seqs == 1)
            &&& gate_open(t.runtime_gate[n + 2], num_seqs) == (num_seqs == 1)
            &&& gate_open(t.runtime_gate[n + 3], num_seqs) == (num_seqs != 1)
        }),
{
}

/// Where the head is sliced, every forward runs exactly one of its two forms,
/// and one that verifies speculative tokens runs the full head, which gives
/// the logits of every row, and nothing of the slice.
pub proof fn law_speculative_steps_run_the_full_head(
    site: TapeSite,
    num_arena_slots: u32,
    backbone: Produced,
    lm_head: Seq<Instruction>,
    lm_head_tape_index: u32,
    head: Produced,
    slice: Option<QmvChoice>,
    num_seqs: int,
    has_spec_tokens: bool,
)
    requires
        slice_applies(site.bucket_m, lm_head, head.commands, slice),
        num_seqs >= 1,
    ensures
        ({
            let t = joined_tape(
                site,
                num_arena_slots,
                backbone,
                lm_head,
                lm_head_tape_index,
                head,
                slice,
            );
            let n = backbone.commands.len() as int;
            let sliced = num_seqs == 1 && !has_spec_tokens;
            let open = |i: int| gate_open_in_step(t.runtime_gate[i], num_seqs, has_spec_tokens);
            &&& open(n) == sliced
            &&& open(n + 1) == sliced
            &&& open(n + 2) == sliced
            &&& open(n + 3) == !sliced
            &&& has_spec_tokens ==> !open(n) && !open(n + 1) && !open(n + 2) && open(n + 3)
        }),
{
}

// ---- Grids ----

/// A grid of one group per token shrinks to exactly the tokens at hand.
pub proof fn law_row_grid_scales_to_tokens(m: MScaling, num_tokens: int)
    requires
        m.bucket_m.0 > 0,
        0 <= num_tokens,
    ensures
        m.scaled_count(m.bucket_m.0 as int, num_tokens) == num_tokens,
{
    let b = m.bucket_m.0 as int;
    lemma_ceil_div_covers(b * num_tokens, b);
    let c = ceil_div(b * num_tokens, b);
    assert(num_tokens * b >= b * num_tokens) by (nonlinear_arith);
    assert(c >= num_tokens) by (nonlinear_arith)
        requires
            c * b >= b * num_tokens,
            b > 0,
    ;
}

/// A grid of groups of `size` over `width` items per token, shrunk to the
/// tokens at hand, still covers all their items, and is never larger than the
/// grid of the whole bucket. Tiles of tokens have a width of one.
pub proof fn law_grid_scales_to_tokens(m: MScaling, width: int, size: int, num_tokens: int)
    requires
        m.bucket_m.0 > 0,
        width > 0,
        size > 0,
        0 <= num_tokens <= m.bucket_m.0,
    ensures
        m.scaled_count(ceil_div(m.bucket_m.0 * width, size), num_tokens) * size >= num_tokens
            * width,
        m.scaled_count(ceil_div(m.bucket_m.0 * width, size), num_tokens) <= ceil_div(
            m.bucket_m.0 * width,
            size,
        ),
{
    let b = m.bucket_m.0 as int;
    let items = b * width;
    assert(items > 0) by (nonlinear_arith)
        requires
            items == b * width,
            b > 0,
            width > 0,
    ;
    let base = ceil_div(items, size);
    let c = m.scaled_count(base, num_tokens);
    lemma_ceil_div_covers(items, size);
    assert(base >= 0) by (nonlinear_arith)
        requires
            base * size >= items,
            items > 0,
            size > 0,
    ;
    assert(base * num_tokens >= 0) by (nonlinear_arith)
        requires
            base >= 0,
            num_tokens >= 0,
    ;
    lemma_ceil_div_covers(base * num_tokens, b);
    assert(c * b >= base * num_tokens);
    assert(c * size >= num_tokens * width) by (nonlinear_arith)
        requires
            c * b >= base * num_tokens,
            base * size >= items,
            items == b * width,
            b > 0,
            size > 0,
            num_tokens >= 0,
    {
        assert((c * b) * size >= (base * num_tokens) * size);
        assert((base * num_tokens) * size == (base * size) * num_tokens);
        assert((base * size) * num_tokens >= items * num_tokens);
        assert(items * num_tokens == (num_tokens * width) * b);
        assert((c * b) * size == (c * size) * b);
        assert((c * size) * b >= (num_tokens * width) * b);
    }
    assert(base * b >= base * num_tokens) by (nonlinear_arith)
        requires
            base >= 0,
            b >= num_tokens,
    ;
}

} // verus!
