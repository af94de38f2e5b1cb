//! Tests whether lowering is defined, for callers that cannot prove it.
use crate::buckets::{
    bucket_inputs, bucket_result, buckets_defined, BucketChoices, MetalBucketSpec,
};
use crate::commands::LowerSite;
use crate::instruction::{CanonicalParams, Instruction, KernelChoice};
use crate::lowered::MetalDtype;
use crate::lowering::{
    iteration_steps, lemma_walk_error, loop_steps, lowerable, schedule, schedule_from, Inputs,
    Step, TapeSite,
};
use vstd::prelude::*;

verus! {

/// What lowering a tape would come to.
#[derive(Clone, Copy, Debug, PartialEq, Eq, Structural)]
pub enum TapeCheck {
    /// Lowering is not defined.
    Undefined,
    /// Lowering is defined and fails.
    Fails,
    /// Lowering is defined and succeeds.
    Succeeds,
}

impl TapeCheck {
    /// What lowering `inputs` comes to.
    pub open spec fn of(inputs: Inputs) -> TapeCheck {
        if !inputs.defined() {
            TapeCheck::Undefined
        } else if inputs.result() is Err {
            TapeCheck::Fails
        } else {
            TapeCheck::Succeeds
        }
    }
}

fn product_fits(a: u32, b: u32) -> (r: bool)
    ensures
        r == (a * b <= u32::MAX),
{
    a.checked_mul(b).is_some()
}

/// Tests whether lowering one instruction is defined.
pub fn is_lowerable(s: LowerSite, inst: &Instruction, choice: Option<KernelChoice>) -> (r: bool)
    ensures
        r == lowerable(s, *inst, choice),
{
    let wired: bool = match s.params.metal_dtype {
        MetalDtype::Int4 => false,
        _ => true,
    };
    let heads: u64 = s.params.num_q_heads as u64 + 2 * s.params.num_kv_heads as u64;
    let heads_fit: bool = heads <= u32::MAX as u64;
    let threads_fit: bool = 32 * s.params.head_dim as u64 <= u32::MAX as u64;
    let layer: Option<u32> = match *inst {
        Instruction::RmsNorm(_, _, l) => Some(l),
        Instruction::FusedAddRmsNorm(_, _, l) => Some(l),
        Instruction::Gemm(_, _, l, _, _) => Some(l),
        Instruction::AffineQmm(_, _, l, _, _, _, _, _) => Some(l),
        Instruction::FusedGateUpSiluMul(_, _, l) => Some(l),
        Instruction::RopeAppend(_, _, _, _, _, _, l, _) => Some(l),
        Instruction::FusedQkvRopeCache(_, _, l, _, _) => Some(l),
        Instruction::SynthPreAttn(_, _, _, l, _, _, _, _) => Some(l),
        Instruction::SynthMlpPreDown(_, _, _, l, _, _, _) => Some(l),
        Instruction::SynthGateUpSiluMul(_, _, l, _, _, _) => Some(l),
        Instruction::AttentionViaCache(_, _, l, _) => Some(l),
        Instruction::AttentionPrefillPaged(_, _, l, _) => Some(l),
        Instruction::MetalBiasAdd(_, _, l, _, _) => Some(l),
        _ => None,
    };
    let layer_fits: bool = match layer {
        Some(l) => l.checked_add(s.layer_offset).is_some(),
        None => true,
    };
    match *inst {
        Instruction::Embed(..) => wired,
        Instruction::RmsNorm(..) => wired && layer_fits,
        Instruction::FusedAddRmsNorm(..) => wired && layer_fits,
        Instruction::Gemm(..) => layer_fits,
        Instruction::AffineQmm(_, _, _, _, _, _, _, vector_limit) => wired && layer_fits
            && match choice {
            Some(KernelChoice::Qmv(_)) => s.bucket_m < vector_limit,
            Some(KernelChoice::QmmT(_)) => s.bucket_m >= vector_limit,
            None => false,
        },
        Instruction::SiluMul(..) => wired && product_fits(s.bucket_m, s.intermediate_size()),
        Instruction::AffineEmbed(_, group_size, bits) => wired && bits == 4 && (group_size == 32
            || group_size == 64 || group_size == 128),
        Instruction::FusedGateUpSiluMul(..) => wired && layer_fits,
        Instruction::RopeAppend(..) => wired && layer_fits,
        Instruction::FusedQkvRopeCache(_, _, _, biased, interleaved) => wired && layer_fits
            && heads_fit && !biased && !interleaved,
        Instruction::SynthPreAttn(_, _, _, _, _, bits, _, _) => layer_fits && heads_fit
            && threads_fit && bits == 4,
        Instruction::SynthMlpPreDown(_, _, _, _, _, bits, _) => {
            if !layer_fits || s.params.head_dim == 0 || !threads_fit || bits != 4 {
                false
            } else {
                s.intermediate_size() % s.params.head_dim == 0
            }
        },
        Instruction::SynthGateUpSiluMul(..) => layer_fits,
        Instruction::AttentionViaCache(..) => wired && layer_fits,
        Instruction::AttentionPrefillContiguous(..) => false,
        Instruction::AttentionPrefillPaged(..) => layer_fits,
        Instruction::Add(..) => wired && product_fits(s.bucket_m, s.q_size()),
        Instruction::ScalarMul(..) => wired && product_fits(s.bucket_m, s.q_size()),
        Instruction::MetalBiasAdd(_, _, _, n, _) => wired && layer_fits && product_fits(
            s.bucket_m,
            n,
        ),
        Instruction::Reshape(..) => true,
        Instruction::Alias(..) => true,
        Instruction::Free(..) => true,
        Instruction::Loop(..) => false,
        Instruction::Other(_) => true,
    }
}

/// A step fails exactly if its instruction has no lowering or its loop is
/// malformed.
proof fn lemma_step_fails(inputs: Inputs, step: Step)
    ensures
        inputs.step_result(step) is Err <==> match step {
            Step::Lower { index, .. } => inputs.instructions[index] is Other,
            Step::Malformed { .. } => true,
        },
{
    reveal(Inputs::step_result);
}

/// What is known of the steps walked so far: they are all defined, and none
/// failed.
spec fn clean(inputs: Inputs, steps: Seq<Step>, done: Seq<Step>, rest: Seq<Step>) -> bool {
    &&& steps == done + rest
    &&& inputs.walk(done) is Ok
    &&& forall|k: int| 0 <= k < done.len() ==> inputs.step_defined(#[trigger] steps[k])
}

/// A walk that is clean up to its end is defined and succeeds.
proof fn lemma_clean_end(inputs: Inputs, steps: Seq<Step>, done: Seq<Step>)
    requires
        clean(inputs, steps, done, Seq::empty()),
    ensures
        inputs.walk_defined(steps),
        inputs.walk(steps) is Ok,
{
    assert(steps =~= done);
}

/// What the next step of a clean walk says about the whole: an undefined step
/// makes it undefined, a failing one makes it fail, any other leaves it clean.
proof fn lemma_clean_step(
    inputs: Inputs,
    steps: Seq<Step>,
    done: Seq<Step>,
    step: Step,
    rest: Seq<Step>,
)
    requires
        clean(inputs, steps, done, seq![step] + rest),
    ensures
        !inputs.step_defined(step) ==> !inputs.walk_defined(steps),
        inputs.step_defined(step) && inputs.step_result(step) is Err ==> inputs.walk_defined(steps)
            && inputs.walk(steps) is Err,
        inputs.step_defined(step) && inputs.step_result(step) is Ok ==> clean(
            inputs,
            steps,
            done.push(step),
            rest,
        ),
{
    let n = done.len() as int;
    assert(steps[n] == step);
    assert(steps.take(n) =~= done);
    assert(done.push(step).drop_last() =~= done);
    assert(steps =~= done.push(step) + rest);
    if inputs.step_defined(step) && inputs.step_result(step) is Err {
        assert(inputs.walk(done.push(step)) is Err);
        assert forall|k: int|
            #![trigger steps[k]]
            0 <= k < steps.len() && inputs.walk(steps.take(k)) is Ok implies inputs.step_defined(
            steps[k],
        ) by {
            if k > n {
                assert(steps.take(k) =~= done.push(step) + rest.take(k - n - 1));
                lemma_walk_error(inputs, done.push(step), rest.take(k - n - 1));
            }
        }
        lemma_walk_error(inputs, done.push(step), rest);
    }
}

/// Tests one step; `None` if the walk goes on.
fn check_step(
    site: TapeSite,
    instructions: &[Instruction],
    choices: &[Option<KernelChoice>],
    Ghost(barriers): Ghost<Seq<bool>>,
    index: usize,
    layer_offset: u32,
) -> (r: Option<TapeCheck>)
    requires
        index < instructions@.len(),
    ensures
        ({
            let inputs = Inputs {
                site,
                instructions: instructions@,
                choices: choices@,
                barriers,
            };
            let step = Step::Lower { index: index as int, layer_offset: layer_offset as int };
            match r {
                Some(TapeCheck::Undefined) => !inputs.step_defined(step),
                Some(TapeCheck::Fails) => inputs.step_defined(step) && inputs.step_result(
                    step,
                ) is Err,
                Some(TapeCheck::Succeeds) => false,
                None => inputs.step_defined(step) && inputs.step_result(step) is Ok,
            }
        }),
{
    proof {
        let inputs = Inputs { site, instructions: instructions@, choices: choices@, barriers };
        lemma_step_fails(
            inputs,
            Step::Lower { index: index as int, layer_offset: layer_offset as int },
        );
    }
    let choice: Option<KernelChoice> = if index < choices.len() {
        choices[index]
    } else {
        None
    };
    if !is_lowerable(site.at(index, layer_offset), &instructions[index], choice) {
        return Some(TapeCheck::Undefined);
    }
    match instructions[index] {
        Instruction::Other(_) => Some(TapeCheck::Fails),
        _ => None,
    }
}

/// Tests what lowering a tape comes to. Barrier flags play no part.
pub fn check_tape(
    site: TapeSite,
    instructions: &[Instruction],
    choices: &[Option<KernelChoice>],
    barriers_in: &[bool],
) -> (r: TapeCheck)
    ensures
        r == TapeCheck::of(
            Inputs {
                site,
                instructions: instructions@,
                choices: choices@,
                barriers: barriers_in@,
            },
        ),
{
    let ghost inputs = Inputs {
        site,
        instructions: instructions@,
        choices: choices@,
        barriers: barriers_in@,
    };
    let ghost steps = schedule(instructions@);
    let ghost mut done: Seq<Step> = Seq::empty();
    let len: usize = instructions.len();
    let mut i: usize = 0;
    assert(steps =~= done + schedule_from(instructions@, 0));
    while i < len
        invariant
            len == instructions@.len(),
            i <= len,
            inputs == (Inputs {
                site,
                instructions: instructions@,
                choices: choices@,
                barriers: barriers_in@,
            }),
            steps == schedule(instructions@),
            clean(inputs, steps, done, schedule_from(instructions@, i as int)),
        decreases len - i,
    {
        match instructions[i] {
            Instruction::Loop(count, body_len) => {
                let body_start: usize = i + 1;
                let body_len_usize: usize = body_len as usize;
                if body_len_usize > len - body_start {
                    proof {
                        let step = Step::Malformed {
                            index: i as int,
                            count,
                            body_len,
                            remaining: len - body_start,
                        };
                        assert(schedule_from(instructions@, i as int) =~= seq![step]
                            + Seq::empty());
                        lemma_step_fails(inputs, step);
                        lemma_clean_step(inputs, steps, done, step, Seq::empty());
                    }
                    return TapeCheck::Fails;
                }
                let body_end: usize = body_start + body_len_usize;
                let ghost tail = schedule_from(instructions@, body_end as int);
                let mut iter: u32 = 0;
                while iter < count
                    invariant
                        len == instructions@.len(),
                        iter <= count,
                        body_end <= len,
                        body_end == body_start + body_len,
                        body_len_usize == body_len,
                        inputs == (Inputs {
                            site,
                            instructions: instructions@,
                            choices: choices@,
                            barriers: barriers_in@,
                        }),
                        steps == schedule(instructions@),
                        clean(
                            inputs,
                            steps,
                            done,
                            loop_steps(
                                body_start as int,
                                body_len as int,
                                iter as int,
                                count as int,
                            ) + tail,
                        ),
                    decreases count - iter,
                {
                    let ghost body = iteration_steps(
                        body_start as int,
                        body_len as int,
                        iter as int,
                    );
                    let ghost later = loop_steps(
                        body_start as int,
                        body_len as int,
                        iter + 1,
                        count as int,
                    ) + tail;
                    assert(body.skip(0) + later =~= loop_steps(
                        body_start as int,
                        body_len as int,
                        iter as int,
                        count as int,
                    ) + tail);
                    let mut offset: usize = 0;
                    while offset < body_len_usize
                        invariant
                            len == instructions@.len(),
                            offset <= body_len_usize,
                            body_end <= len,
                            body_end == body_start + body_len,
                            body_len_usize == body_len,
                            inputs == (Inputs {
                                site,
                                instructions: instructions@,
                                choices: choices@,
                                barriers: barriers_in@,
                            }),
                            steps == schedule(instructions@),
                            body == iteration_steps(
                                body_start as int,
                                body_len as int,
                                iter as int,
                            ),
                            clean(inputs, steps, done, body.skip(offset as int) + later),
                        decreases body_len_usize - offset,
                    {
                        let index: usize = body_start + offset;
                        let ghost step = Step::Lower {
                            index: index as int,
                            layer_offset: iter as int,
                        };
                        let ghost rest = body.skip(offset + 1) + later;
                        proof {
                            assert(body.skip(offset as int) + later =~= seq![step] + rest);
                            lemma_clean_step(inputs, steps, done, step, rest);
                        }
                        if let Some(r) = check_step(
                            site,
                            instructions,
                            choices,
                            Ghost(barriers_in@),
                            index,
                            iter,
                        ) {
                            return r;
                        }
                        proof {
                            done = done.push(step);
                        }
                        offset += 1;
                    }
                    assert(body.skip(offset as int) + later =~= later);
                    iter += 1;
                }
                assert(loop_steps(
                    body_start as int,
                    body_len as int,
                    iter as int,
                    count as int,
                ) + tail =~= tail);
                i = body_end;
            },
            _ => {
                let ghost step = Step::Lower { index: i as int, layer_offset: 0 };
                let ghost rest = schedule_from(instructions@, i + 1);
                proof {
                    lemma_clean_step(inputs, steps, done, step, rest);
                }
                if let Some(r) = check_step(
                    site,
                    instructions,
                    choices,
                    Ghost(barriers_in@),
                    i,
                    0,
                ) {
                    return r;
                }
                proof {
                    done = done.push(step);
                }
                i += 1;
            },
        }
    }
    proof {
        lemma_clean_end(inputs, steps, done);
    }
    TapeCheck::Succeeds
}

/// Tests whether lowering all buckets is defined.
pub fn check_buckets(
    params: CanonicalParams,
    steel_attention: bool,
    specs: &[MetalBucketSpec],
    choices: &[BucketChoices],
) -> (r: bool)
    ensures
        r == buckets_defined(params, steel_attention, specs@, choices@),
{
    if specs.len() != choices.len() {
        return false;
    }
    let mut i: usize = 0;
    while i < specs.len()
        invariant
            i <= specs@.len(),
            specs@.len() == choices@.len(),
            forall|j: int|
                0 <= j < i ==> (#[trigger] bucket_result(
                    params,
                    steel_attention,
                    specs@,
                    choices@,
                    j,
                )) is Ok,
            forall|j: int|
                0 <= j < i ==> bucket_inputs(
                    params,
                    steel_attention,
                    #[trigger] specs@[j],
                    choices@[j],
                ).defined(),
        decreases specs@.len() - i,
    {
        let spec = &specs[i];
        let choice = &choices[i];
        let ghost pair = bucket_inputs(
            params,
            steel_attention,
            specs@[i as int],
            choices@[i as int],
        );
        let site = TapeSite {
            params,
            steel_attention,
            bucket_m: spec.bucket_m,
            tape_index: spec.backbone_tape_index,
        };
        let head_site = TapeSite {
            params,
            steel_attention,
            bucket_m: spec.bucket_m,
            tape_index: spec.lm_head_tape_index,
        };
        let backbone = check_tape(
            site,
            spec.backbone,
            choice.backbone.as_slice(),
            spec.backbone_barriers,
        );
        let head = check_tape(
            head_site,
            spec.lm_head,
            choice.lm_head.as_slice(),
            spec.lm_head_barriers,
        );
        assert(backbone == TapeCheck::of(pair.backbone_inputs()));
        assert(head == TapeCheck::of(pair.head_inputs()));
        assert(pair.result() == bucket_result(
            params,
            steel_attention,
            specs@,
            choices@,
            i as int,
        ));
        match (backbone, head) {
            (TapeCheck::Succeeds, TapeCheck::Succeeds) => {},
            (TapeCheck::Fails, _) | (TapeCheck::Succeeds, TapeCheck::Fails) => {
                proof {
                    assert(bucket_result(
                        params,
                        steel_attention,
                        specs@,
                        choices@,
                        i as int,
                    ) is Err);
                }
                return true;
            },
            _ => {
                assert(!pair.defined());
                assert(specs@[i as int] == *spec);
                return false;
            },
        }
        i += 1;
    }
    true
}

/// A check tells the three outcomes apart: lowering that is not defined, that
/// is defined and fails, and that is defined and succeeds.
pub proof fn law_checks_tell_outcomes_apart(inputs: Inputs)
    ensures
        TapeCheck::of(inputs) is Undefined <==> !inputs.defined(),
        TapeCheck::of(inputs) is Fails <==> inputs.defined() && inputs.result() is Err,
        TapeCheck::of(inputs) is Succeeds <==> inputs.defined() && inputs.result() is Ok,
{
}

} // verus!
