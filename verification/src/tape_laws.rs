//! What a lowered tape is made of: which instruction is lowered when, with
//! which flags and for which kernel, and how backbone and head are joined.
use crate::command_laws::{just_covers, lemma_just_covers};
use crate::commands::LowerSite;
use crate::ids::{ConstSlot, LayerId};
use crate::instruction::{
    CanonicalParams, DequantDtype, Instruction, KernelChoice, KernelQuery, QmmTChoice, QmmTKernel,
    QmvChoice, QmvKernel, ScaleDtype,
};
use crate::lowered::{
    Binding, CommandView, ConstantValue, KernelId, LoweringError, MetalDtype, RuntimeBindingKind,
    RuntimeGate, WeightBundleKind, WeightLocator, WeightTensor,
};
use crate::lowering::{
    instruction_commands, instruction_scratch, joined_tape, loop_steps, lowerable, plain_tape,
    query_of, schedule, schedule_from, slice_applies, slice_query_of, Inputs, PairInputs, Produced,
    Step, TapeSite,
};
use vstd::prelude::*;

verus! {

// ---- The walk ----

/// A tape without loops is lowered instruction by instruction, each once and in
/// order, on the layers that it names.
pub proof fn law_straight_tapes_are_lowered_in_order(instructions: Seq<Instruction>, i: int)
    requires
        0 <= i <= instructions.len(),
        forall|k: int| 0 <= k < instructions.len() ==> (#[trigger] instructions[k]) !is Loop,
    ensures
        schedule_from(instructions, i).len() == instructions.len() - i,
        forall|j: int|
            0 <= j < instructions.len() - i ==> (#[trigger] schedule_from(instructions, i)[j])
                == (Step::Lower { index: i + j, layer_offset: 0 }),
        schedule(instructions) == schedule_from(instructions, 0),
    decreases instructions.len() - i,
{
    if i < instructions.len() {
        law_straight_tapes_are_lowered_in_order(instructions, i + 1);
        let rest = schedule_from(instructions, i + 1);
        assert forall|j: int| 0 <= j < instructions.len() - i implies (
        #[trigger] schedule_from(instructions, i)[j]) == (Step::Lower {
            index: i + j,
            layer_offset: 0,
        }) by {
            if j > 0 {
                assert(schedule_from(instructions, i)[j] == rest[j - 1]);
            }
        }
    }
}

/// A loop whose body is there is replaced by its iterations, and the walk goes
/// on behind the body. A loop that names more instructions than are left ends
/// the walk with an error that says where, how often, how many, and how many
/// are left.
pub proof fn law_loops_are_replaced_by_their_iterations(
    inputs: Inputs,
    i: int,
    count: u32,
    body_len: u32,
)
    requires
        0 <= i < inputs.instructions.len(),
        inputs.instructions[i] == Instruction::Loop(count, body_len),
    ensures
        ({
            let tape = inputs.instructions;
            let left = tape.len() - i - 1;
            let steps = schedule_from(tape, i);
            &&& body_len <= left ==> steps == loop_steps(i + 1, body_len as int, 0, count as int)
                + schedule_from(tape, i + 1 + body_len)
            &&& body_len > left ==> steps.len() == 1 && inputs.step_result(steps[0]) == Err::<
                Produced,
                LoweringError,
            >(
                LoweringError::MalformedLoop {
                    index: i as usize,
                    count,
                    body_len,
                    remaining: left as usize,
                },
            )
        }),
{
    reveal(Inputs::step_result);
}

/// What is behind the end of a tape is nothing.
pub proof fn law_walks_end_with_the_tape(instructions: Seq<Instruction>)
    ensures
        schedule_from(instructions, instructions.len() as int).len() == 0,
{
}

/// An instruction is lowered for its own place in the tape, in its iteration,
/// with its own kernel choice. Its first command takes its own barrier flag,
/// which is set where the tape gives none, and every further command has a
/// barrier.
pub proof fn law_instructions_are_lowered_in_place(inputs: Inputs, index: usize, layer_offset: u32)
    requires
        index < inputs.instructions.len(),
    ensures
        ({
            let site = LowerSite {
                params: inputs.site.params,
                steel_attention: inputs.site.steel_attention,
                bucket_m: inputs.site.bucket_m,
                tape_index: inputs.site.tape_index,
                index,
                layer_offset,
            };
            let choice = if index < inputs.choices.len() {
                inputs.choices[index as int]
            } else {
                None
            };
            let flag = if index < inputs.barriers.len() {
                inputs.barriers[index as int]
            } else {
                true
            };
            let step = Step::Lower { index: index as int, layer_offset: layer_offset as int };
            let inst = inputs.instructions[index as int];
            match (inputs.step_result(step), instruction_commands(site, inst, choice)) {
                (Ok(p), Ok(cs)) => {
                    &&& p.commands == cs
                    &&& p.barriers.len() == cs.len()
                    &&& cs.len() > 0 ==> p.barriers[0] == flag
                    &&& forall|i: int| 0 < i < cs.len() ==> #[trigger] p.barriers[i]
                    &&& p.scratch == instruction_scratch(site, inst, choice)
                },
                (Err(a), Err(b)) => a == b,
                _ => false,
            }
        }),
{
    reveal(Inputs::step_result);
}

/// Instructions that rebind slots have no command, and one that has no lowering
/// is reported by its place and its name.
pub proof fn law_other_instructions(
    s: LowerSite,
    inst: Instruction,
    choice: Option<KernelChoice>,
    name: &'static str,
)
    ensures
        inst is Reshape || inst is Alias || inst is Free ==> (instruction_commands(
            s,
            inst,
            choice,
        ) matches Ok(cs) && cs.len() == 0),
        inst == Instruction::Other(name) ==> instruction_commands(s, inst, choice) == Err::<
            Seq<CommandView>,
            LoweringError,
        >(LoweringError::UnsupportedVariant { index: s.index, variant_type: name }),
{
}

/// A split-K product asks for two bytes per partial of each output element, as
/// far as that can be counted, and nothing else asks for scratch.
pub proof fn law_split_k_asks_for_its_partials(
    s: LowerSite,
    inst: Instruction,
    c: QmmTChoice,
    split_k: u32,
    k_partition_size: u32,
    n: u32,
)
    requires
        inst matches Instruction::AffineQmm(_, _, _, width, _, _, _, _) && width == n,
        c.kernel == (QmmTKernel::SplitK { split_k, k_partition_size }),
    ensures
        ({
            let bytes = instruction_scratch(s, inst, Some(KernelChoice::QmmT(c)));
            let exact = 2 * (split_k * s.bucket_m * n);
            &&& exact <= u32::MAX ==> bytes == exact
            &&& exact > u32::MAX && n > 0 ==> bytes == u32::MAX
        }),
{
    let a = split_k as int;
    let m = s.bucket_m as int;
    let w = n as int;
    assert(0 <= a * m) by (nonlinear_arith)
        requires
            a >= 0,
            m >= 0,
    ;
    assert(0 <= a * m * w) by (nonlinear_arith)
        requires
            a * m >= 0,
            w >= 0,
    ;
    if w > 0 {
        assert(a * m <= a * m * w) by (nonlinear_arith)
            requires
                a * m >= 0,
                w >= 1,
        ;
        if a * m > u32::MAX {
            assert(u32::MAX * w >= u32::MAX) by (nonlinear_arith)
                requires
                    w >= 1,
            ;
        }
    } else {
        assert(a * m * w == 0) by (nonlinear_arith)
            requires
                w == 0,
        ;
        assert(u32::MAX * w == 0) by (nonlinear_arith)
            requires
                w == 0,
        ;
    }
}

/// Only split-K products ask for scratch.
pub proof fn law_nothing_else_asks_for_scratch(
    s: LowerSite,
    inst: Instruction,
    choice: Option<KernelChoice>,
)
    requires
        !(inst is AffineQmm && (choice matches Some(KernelChoice::QmmT(c)) && c.kernel is SplitK)),
    ensures
        instruction_scratch(s, inst, choice) == 0,
{
}

// ---- What a picker is asked ----

/// A picker is asked about quantized products only: by the product's own
/// width, depth, group size and bits, for the bucket's rows, in the model's
/// activation type with half-precision scales. Fewer rows than the product's
/// limit ask for a matrix-vector kernel, others for a matrix kernel.
pub proof fn law_pickers_are_asked_about_the_product(
    s: LowerSite,
    inst: Instruction,
    n: u32,
    k: u32,
    group_size: u32,
    bits: u32,
    vector_limit: u32,
)
    ensures
        inst !is AffineQmm ==> query_of(s, inst) is None,
        inst matches Instruction::AffineQmm(_, _, _, a, b, c, d, e) ==> (a == n && b == k && c
            == group_size && d == bits && e == vector_limit ==> {
            let dtype = if s.params.metal_dtype is Bf16 {
                DequantDtype::Bf16
            } else {
                DequantDtype::F16
            };
            let m = s.bucket_m;
            let scale_dtype = ScaleDtype::F16;
            &&& m < vector_limit ==> query_of(s, inst) == Some(
                KernelQuery::Qmv { m, n, k, group_size, bits, dtype, scale_dtype },
            )
            &&& m >= vector_limit ==> query_of(s, inst) == Some(
                KernelQuery::QmmT { m, n, k, group_size, bits, dtype, scale_dtype },
            )
        }),
{
}

/// For a sliced head a picker is asked for a matrix-vector kernel for one row
/// of the head's product, and for nothing where the head is anything else.
pub proof fn law_slices_are_asked_for_one_row(
    params: CanonicalParams,
    lm_head: Seq<Instruction>,
    n: u32,
    k: u32,
    group_size: u32,
    bits: u32,
)
    ensures
        lm_head.len() != 1 || lm_head[0] !is AffineQmm ==> slice_query_of(params, lm_head) is None,
        lm_head.len() == 1 ==> (lm_head[0] matches Instruction::AffineQmm(_, _, _, a, b, c, d, _)
            ==> (a == n && b == k && c == group_size && d == bits ==> {
            let dtype = if params.metal_dtype is Bf16 {
                DequantDtype::Bf16
            } else {
                DequantDtype::F16
            };
            let scale_dtype = ScaleDtype::F16;
            slice_query_of(params, lm_head) == Some(
                KernelQuery::Qmv { m: 1, n, k, group_size, bits, dtype, scale_dtype },
            )
        })),
{
}

// ---- Backbone and head ----

/// A head is sliced exactly if the slice is on, the bucket holds at least two
/// tokens, and the head is one quantized product that came to one command of a
/// one-pass matrix kernel.
pub proof fn law_sliced_heads(
    bucket_m: u32,
    lm_head: Seq<Instruction>,
    head: Seq<CommandView>,
    slice: Option<QmvChoice>,
)
    ensures
        slice_applies(bucket_m, lm_head, head, slice) <==> {
            &&& slice is Some
            &&& bucket_m >= 2
            &&& lm_head.len() == 1
            &&& lm_head[0] is AffineQmm
            &&& head.len() == 1
            &&& (head[0].kernel == KernelId::AffineQmmT || head[0].kernel
                == KernelId::AffineQmmTNax)
        },
{
}

/// The slice of a head copies the last token's hidden state to row 0 of the
/// input, runs the picked matrix-vector kernel on that row with the head's
/// weights, and copies the logits from row 0 of the output to the last token's
/// row. The full head follows. The copies stand behind barriers, the product
/// behind the head's own.
pub proof fn law_slices_run_on_the_last_token(
    site: TapeSite,
    num_arena_slots: u32,
    backbone: Produced,
    lm_head: Seq<Instruction>,
    lm_head_tape_index: u32,
    head: Produced,
    p: QmvChoice,
    input: u32,
    out: u32,
    layer: u32,
    n: u32,
    k: u32,
)
    requires
        slice_applies(site.bucket_m, lm_head, head.commands, Some(p)),
        lm_head[0] matches Instruction::AffineQmm(a, b, c, d, e, _, _, _) && a == input && b == out
            && c == layer && d == n && e == k,
        backbone.barriers.len() == backbone.commands.len(),
        head.barriers.len() == 1,
    ensures
        ({
            let t = joined_tape(
                site,
                num_arena_slots,
                backbone,
                lm_head,
                lm_head_tape_index,
                head,
                Some(p),
            );
            let at = backbone.commands.len() as int;
            let bf16 = site.params.metal_dtype is Bf16;
            let gather = t.commands[at];
            let product = t.commands[at + 1];
            let scatter = t.commands[at + 2];
            let locator = WeightLocator { bucket: lm_head_tape_index, op_idx: 0, slot: 0 };
            let weight = |which: WeightTensor, i: u8|
                Binding::Weight {
                    kind: WeightBundleKind::LinearLayer,
                    which,
                    layer: LayerId(layer),
                    locator,
                    binding_index: i,
                };
            &&& t.commands.len() == at + 4
            &&& forall|i: int| 0 <= i < at ==> #[trigger] t.commands[i] == backbone.commands[i]
            &&& t.commands[at + 3] == head.commands[0]
            &&& gather.kernel is GatherLastToken
            &&& gather.library == "gather_last_token"
            &&& bf16 ==> gather.function == "gather_last_token_bf16_specialized"
            &&& !bf16 ==> gather.function == "gather_last_token_f16_specialized"
            &&& gather.constants.len() == 1
            &&& gather.constants[0] == (ConstantValue::Uint { slot: ConstSlot(0), value: k })
            &&& just_covers(gather.dispatch.threadgroups.0 as int, 256, k as int)
            &&& gather.dispatch.threadgroups.1 == 1 && gather.dispatch.threadgroups.2 == 1
            &&& gather.dispatch.threads_per_threadgroup == (256u32, 1u32, 1u32)
            &&& gather.dispatch.m_scaling is None
            &&& gather.bindings.len() == 2
            &&& gather.bindings[0] == (Binding::ArenaSlot { slot: input, binding_index: 0 })
            &&& gather.bindings[1] == (Binding::Runtime {
                kind: RuntimeBindingKind::NumTokensU32,
                binding_index: 1,
            })
            &&& match p.kernel {
                QmvKernel::Quad { .. } => product.kernel is AffineQmvQuad,
                QmvKernel::Fast => product.kernel is AffineQmvFast,
                QmvKernel::Generic => product.kernel is AffineQmv,
            }
            &&& product.library == "quantized_qmv"
            &&& product.function == p.function
            &&& product.constants.len() == 2
            &&& product.constants[0] == (ConstantValue::Int {
                slot: ConstSlot(0),
                value: k as i32,
            })
            &&& product.constants[1] == (ConstantValue::Int {
                slot: ConstSlot(1),
                value: n as i32,
            })
            &&& product.dispatch.threadgroups == p.threadgroups
            &&& product.dispatch.threads_per_threadgroup == p.threads_per_threadgroup
            &&& product.dispatch.m_scaling is None
            &&& product.bindings.len() == 5
            &&& product.bindings[0] == weight(WeightTensor::Weight, 0)
            &&& product.bindings[1] == weight(WeightTensor::AffineScales, 1)
            &&& product.bindings[2] == weight(WeightTensor::AffineBiases, 2)
            &&& product.bindings[3] == (Binding::ArenaSlot { slot: input, binding_index: 3 })
            &&& product.bindings[4] == (Binding::ArenaSlot { slot: out, binding_index: 4 })
            &&& scatter.kernel is ScatterFirstToLastRow
            &&& scatter.library == "gather_last_token"
            &&& bf16 ==> scatter.function == "scatter_first_to_last_row_bf16_specialized"
            &&& !bf16 ==> scatter.function == "scatter_first_to_last_row_f16_specialized"
            &&& scatter.constants.len() == 1
            &&& scatter.constants[0] == (ConstantValue::Uint { slot: ConstSlot(0), value: n })
            &&& just_covers(scatter.dispatch.threadgroups.0 as int, 256, n as int)
            &&& scatter.dispatch.threadgroups.1 == 1 && scatter.dispatch.threadgroups.2 == 1
            &&& scatter.dispatch.threads_per_threadgroup == (256u32, 1u32, 1u32)
            &&& scatter.dispatch.m_scaling is None
            &&& scatter.bindings.len() == 2
            &&& scatter.bindings[0] == (Binding::ArenaSlot { slot: out, binding_index: 0 })
            &&& scatter.bindings[1] == (Binding::Runtime {
                kind: RuntimeBindingKind::NumTokensU32,
                binding_index: 1,
            })
            &&& forall|i: int|
                0 <= i < at ==> #[trigger] t.barrier_before[i] == backbone.barriers[i]
            &&& t.barrier_before[at]
            &&& t.barrier_before[at + 1] == head.barriers[0]
            &&& t.barrier_before[at + 2]
            &&& t.barrier_before[at + 3] == head.barriers[0]
            &&& t.runtime_gate[at] == Some(RuntimeGate::OnlyIfSingleSeq)
            &&& t.runtime_gate[at + 1] == Some(RuntimeGate::OnlyIfSingleSeq)
            &&& t.runtime_gate[at + 2] == Some(RuntimeGate::OnlyIfSingleSeq)
            &&& t.runtime_gate[at + 3] == Some(RuntimeGate::OnlyIfMultiSeq)
        }),
{
    lemma_just_covers(k as int, 256);
    lemma_just_covers(n as int, 256);
}

/// Without a slice, the head follows the backbone, with its flags, and nothing
/// is gated. Either way the tape is that of its bucket, its scratch serves both
/// halves, and no mixture of experts asks for any.
pub proof fn law_heads_follow_their_backbone(
    site: TapeSite,
    num_arena_slots: u32,
    backbone: Produced,
    lm_head: Seq<Instruction>,
    lm_head_tape_index: u32,
    head: Produced,
    slice: Option<QmvChoice>,
)
    ensures
        ({
            let t = joined_tape(
                site,
                num_arena_slots,
                backbone,
                lm_head,
                lm_head_tape_index,
                head,
                slice,
            );
            let sliced = slice_applies(site.bucket_m, lm_head, head.commands, slice);
            &&& t.bucket_m == site.bucket_m
            &&& t.num_arena_slots == num_arena_slots
            &&& t.splitk_scratch_bytes >= backbone.scratch
            &&& t.splitk_scratch_bytes >= head.scratch
            &&& t.splitk_scratch_bytes == backbone.scratch || t.splitk_scratch_bytes
                == head.scratch
            &&& t.moe_scratch_bytes == 0
            &&& !sliced ==> t.commands == backbone.commands + head.commands
            &&& !sliced ==> t.barrier_before == backbone.barriers + head.barriers
            &&& !sliced ==> t.runtime_gate.len() == t.commands.len()
            &&& !sliced ==> forall|i: int|
                0 <= i < t.runtime_gate.len() ==> #[trigger] t.runtime_gate[i] is None
        }),
{
}

/// A tape of one half is what its walk produced, ungated.
pub proof fn law_plain_tapes(bucket_m: u32, num_arena_slots: u32, p: Produced)
    ensures
        ({
            let t = plain_tape(bucket_m, num_arena_slots, p);
            &&& t.bucket_m == bucket_m
            &&& t.num_arena_slots == num_arena_slots
            &&& t.commands == p.commands
            &&& t.barrier_before == p.barriers
            &&& t.runtime_gate.len() == p.commands.len()
            &&& forall|i: int|
                0 <= i < t.runtime_gate.len() ==> #[trigger] t.runtime_gate[i] is None
            &&& t.splitk_scratch_bytes == p.scratch
            &&& t.moe_scratch_bytes == 0
        }),
{
}

/// A bucket whose backbone fails reports the backbone's error, one whose head
/// alone fails the head's, and any other succeeds. Both halves are lowered for
/// the same bucket and model, each with its own tape, choices and flags.
pub proof fn law_pairs_report_the_first_half_that_fails(p: PairInputs, e: LoweringError)
    ensures
        p.backbone_inputs().result() == Err::<Produced, LoweringError>(e) ==> (
        p.result() matches Err(f) && f == e),
        p.backbone_inputs().result() is Ok && p.head_inputs().result() == Err::<
            Produced,
            LoweringError,
        >(e) ==> (p.result() matches Err(f) && f == e),
        p.backbone_inputs().result() is Ok && p.head_inputs().result() is Ok ==> p.result() is Ok,
        p.backbone_inputs().instructions == p.backbone,
        p.backbone_inputs().choices == p.backbone_choices,
        p.backbone_inputs().barriers == p.backbone_barriers,
        p.backbone_inputs().site == p.site,
        p.head_inputs().instructions == p.lm_head,
        p.head_inputs().choices == p.lm_head_choices,
        p.head_inputs().barriers == p.lm_head_barriers,
        p.head_inputs().site.tape_index == p.lm_head_tape_index,
        p.head_inputs().site.bucket_m == p.site.bucket_m,
        p.head_inputs().site.params == p.site.params,
        p.head_inputs().site.steel_attention == p.site.steel_attention,
{
}

/// One more step appends its commands and flags behind those before it, and
/// raises the scratch to its own if that is larger; a step that fails ends the
/// walk with its error, and so does one before it.
pub proof fn law_walks_append(inputs: Inputs, steps: Seq<Step>, step: Step)
    ensures
        inputs.walk(Seq::empty()) matches Ok(p) && p.commands.len() == 0 && p.barriers.len() == 0
            && p.scratch == 0,
        match (inputs.walk(steps), inputs.step_result(step)) {
            (Ok(p), Ok(q)) => inputs.walk(steps.push(step)) matches Ok(r) && {
                &&& r.commands == p.commands + q.commands
                &&& r.barriers == p.barriers + q.barriers
                &&& r.scratch >= p.scratch
                &&& r.scratch >= q.scratch
                &&& r.scratch == p.scratch || r.scratch == q.scratch
            },
            (Ok(_), Err(e)) => inputs.walk(steps.push(step)) matches Err(f) && f == e,
            (Err(e), _) => inputs.walk(steps.push(step)) matches Err(f) && f == e,
        },
{
    assert(steps.push(step).drop_last() =~= steps);
}

/// The layers, heads and element counts that an instruction names are within
/// the limits of the machine.
pub open spec fn sizes_are_countable(s: LowerSite, inst: Instruction) -> bool {
    let m = s.bucket_m;
    &&& s.params.num_q_heads + 2 * s.params.num_kv_heads <= u32::MAX
    &&& 32 * s.params.head_dim <= u32::MAX
    &&& m * (s.params.q_size as u32) <= u32::MAX
    &&& m * (s.params.intermediate_size as u32) <= u32::MAX
    &&& match inst {
        Instruction::RmsNorm(_, _, l) => l + s.layer_offset <= u32::MAX,
        Instruction::FusedAddRmsNorm(_, _, l) => l + s.layer_offset <= u32::MAX,
        Instruction::Gemm(_, _, l, _, _) => l + s.layer_offset <= u32::MAX,
        Instruction::AffineQmm(_, _, l, _, _, _, _, _) => l + s.layer_offset <= u32::MAX,
        Instruction::FusedGateUpSiluMul(_, _, l) => l + s.layer_offset <= u32::MAX,
        Instruction::RopeAppend(_, _, _, _, _, _, l, _) => l + s.layer_offset <= u32::MAX,
        Instruction::FusedQkvRopeCache(_, _, l, _, _) => l + s.layer_offset <= u32::MAX,
        Instruction::SynthPreAttn(_, _, _, l, _, _, _, _) => l + s.layer_offset <= u32::MAX,
        Instruction::SynthMlpPreDown(_, _, _, l, _, _, _) => l + s.layer_offset <= u32::MAX,
        Instruction::SynthGateUpSiluMul(_, _, l, _, _, _) => l + s.layer_offset <= u32::MAX,
        Instruction::AttentionViaCache(_, _, l, _) => l + s.layer_offset <= u32::MAX,
        Instruction::AttentionPrefillPaged(_, _, l, _) => l + s.layer_offset <= u32::MAX,
        Instruction::MetalBiasAdd(_, _, l, n, _) => l + s.layer_offset <= u32::MAX && m * n
            <= u32::MAX,
        _ => true,
    }
}

/// With half-precision or bfloat16 activations and countable sizes, everything
/// but a loop and contiguous prefill can be lowered: a quantized product with a
/// choice of the right kind, an embedding with four bits and groups of 32, 64 or
/// 128, a fused projection without bias and interleaving, and a synthesized
/// kernel with four bits and, in the MLP, an intermediate size of whole heads.
pub proof fn law_what_can_be_lowered(s: LowerSite, inst: Instruction, choice: Option<KernelChoice>)
    requires
        s.params.metal_dtype == MetalDtype::F16 || s.params.metal_dtype == MetalDtype::Bf16,
        sizes_are_countable(s, inst),
    ensures
        lowerable(s, inst, choice) <==> match inst {
            Instruction::AffineQmm(_, _, _, _, _, _, _, vector_limit) => match choice {
                Some(KernelChoice::Qmv(_)) => s.bucket_m < vector_limit,
                Some(KernelChoice::QmmT(_)) => s.bucket_m >= vector_limit,
                None => false,
            },
            Instruction::AffineEmbed(_, group_size, bits) => bits == 4 && (group_size == 32
                || group_size == 64 || group_size == 128),
            Instruction::FusedQkvRopeCache(_, _, _, biased, interleaved) => !biased
                && !interleaved,
            Instruction::SynthPreAttn(_, _, _, _, _, bits, _, _) => bits == 4,
            Instruction::SynthMlpPreDown(_, _, _, _, _, bits, _) => {
                &&& bits == 4
                &&& s.params.head_dim > 0
                &&& (s.params.intermediate_size as u32) as int % s.params.head_dim as int == 0
            },
            Instruction::AttentionPrefillContiguous(_, _, _, _, _) => false,
            Instruction::Loop(_, _) => false,
            _ => true,
        },
{
}

} // verus!
