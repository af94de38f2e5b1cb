//! Lowering pass: from instructions to a `LoweredMetalTape`.
//!
//! The pass unrolls loops, drops instructions that only rebind slots, and
//! turns every other instruction into its commands.
use crate::arith::max_u32;
use crate::commands::{
    add_command, affine_embed_command, attention_prefill_paged_command,
    attention_via_cache_command, bias_add_command, embed_command, fused_add_rms_norm_command,
    fused_gate_up_silu_mul_command, fused_qkv_rope_cache_command, gather_last_token_command,
    gather_last_token_view, gemm_command, lower_add, lower_affine_embed,
    lower_attention_prefill_paged, lower_attention_via_cache, lower_bias_add, lower_embed,
    lower_fused_add_rms_norm, lower_fused_gate_up_silu_mul, lower_fused_qkv_rope_cache,
    lower_gemm, lower_qmm_t, lower_qmv, lower_rms_norm, lower_rope_append, lower_scalar_mul,
    lower_silu_mul, lower_splitk, lower_splitk_reduce, lower_synth_gate_up_silu_mul,
    lower_synth_mlp_pre_down, lower_synth_pre_attn, qmm_t_command, qmv_command,
    rms_norm_command, rope_append_command, scalar_mul_command,
    scatter_first_to_last_row_command, scatter_first_to_last_row_view, silu_mul_command,
    splitk_bytes, splitk_command, splitk_reduce_command, splitk_scratch_for,
    synth_gate_up_silu_mul_command, synth_mlp_pre_down_command, synth_pre_attn_command,
    LowerSite,
};
use crate::ids::LayerId;
use crate::instruction::{
    CanonicalParams, Instruction, KernelChoice, KernelQuery, QmmTKernel, QmvChoice, ScaleDtype,
};
use crate::lowered::{
    command_views, CommandView, KernelId, LoweredCommand, LoweredMetalTape, LoweringError,
    MScaleAxis, RuntimeGate, TapeView, WeightLocator,
};
use crate::symbols::{
    dequant_dtype, dequant_dtype_for, elem_size_bytes, embed_group_size, scale_dtype_for,
};
use vstd::prelude::*;

verus! {

// ---- One instruction ----

/// Lowering `inst` at `s` is defined: the activation type has kernels, layer
/// and element counts fit, the instruction's variant is wired, and a quantized
/// product comes with a choice of the kind that its row count asks for.
pub open spec fn lowerable(
    s: LowerSite,
    inst: Instruction,
    choice: Option<KernelChoice>,
) -> bool {
    match inst {
        Instruction::Embed(..) => s.dtype_wired(),
        Instruction::RmsNorm(_, _, layer) => s.dtype_wired() && s.layer_fits(layer),
        Instruction::FusedAddRmsNorm(_, _, layer) => s.dtype_wired() && s.layer_fits(layer),
        Instruction::Gemm(_, _, layer, _, _) => s.layer_fits(layer),
        Instruction::AffineQmm(_, _, layer, _, _, _, _, vector_limit) => {
            &&& s.dtype_wired()
            &&& s.layer_fits(layer)
            &&& choice matches Some(c) && (c is Qmv <==> s.bucket_m < vector_limit)
        },
        Instruction::SiluMul(..) => s.dtype_wired() && s.bucket_m * s.intermediate_size()
            <= u32::MAX,
        Instruction::AffineEmbed(_, group_size, bits) => s.dtype_wired() && bits == 4
            && embed_group_size(group_size),
        Instruction::FusedGateUpSiluMul(_, _, layer) => s.dtype_wired() && s.layer_fits(layer),
        Instruction::RopeAppend(_, _, _, _, _, _, layer, _) => s.dtype_wired()
            && s.layer_fits(layer),
        Instruction::FusedQkvRopeCache(_, _, layer, biased, interleaved) => s.dtype_wired()
            && s.layer_fits(layer) && s.qkv_heads() <= u32::MAX && !biased && !interleaved,
        Instruction::SynthPreAttn(_, _, _, layer, _, bits, _, _) => s.layer_fits(layer)
            && s.qkv_heads() <= u32::MAX && 32 * s.params.head_dim <= u32::MAX && bits == 4,
        Instruction::SynthMlpPreDown(_, _, _, layer, _, bits, _) => s.layer_fits(layer)
            && s.params.head_dim > 0 && s.intermediate_size() as int % s.params.head_dim as int
            == 0 && 32 * s.params.head_dim <= u32::MAX && bits == 4,
        Instruction::SynthGateUpSiluMul(_, _, layer, _, _, _) => s.layer_fits(layer),
        Instruction::AttentionViaCache(_, _, layer, _) => s.dtype_wired() && s.layer_fits(layer),
        Instruction::AttentionPrefillContiguous(..) => false,
        Instruction::AttentionPrefillPaged(_, _, layer, _) => s.layer_fits(layer),
        Instruction::Add(..) => s.dtype_wired() && s.bucket_m * s.q_size() <= u32::MAX,
        Instruction::ScalarMul(..) => s.dtype_wired() && s.bucket_m * s.q_size() <= u32::MAX,
        Instruction::MetalBiasAdd(_, _, layer, n, _) => s.dtype_wired() && s.layer_fits(layer)
            && s.bucket_m * n <= u32::MAX,
        Instruction::Reshape(..) => true,
        Instruction::Alias(..) => true,
        Instruction::Free(..) => true,
        Instruction::Loop(..) => false,
        Instruction::Other(_) => true,
    }
}

/// The commands of a quantized product.
pub open spec fn affine_qmm_commands(
    s: LowerSite,
    in_slot: u32,
    out_slot: u32,
    layer: u32,
    n: u32,
    k: u32,
    choice: Option<KernelChoice>,
) -> Seq<CommandView> {
    match choice {
        Some(KernelChoice::Qmv(c)) => seq![
            qmv_command(
                c,
                s.scaling(MScaleAxis::X),
                in_slot,
                out_slot,
                s.layer(layer),
                s.locator(0),
                n,
                k,
            ),
        ],
        Some(KernelChoice::QmmT(c)) => match c.kernel {
            QmmTKernel::SplitK { split_k, k_partition_size } => seq![
                splitk_command(s, c, k_partition_size, in_slot, layer, n, k),
                splitk_reduce_command(s, c.reduce_function, split_k, out_slot, n),
            ],
            _ => seq![qmm_t_command(s, c, in_slot, out_slot, layer, n, k)],
        },
        None => Seq::empty(),
    }
}

/// The commands of one instruction, or why it has none.
pub open spec fn instruction_commands(
    s: LowerSite,
    inst: Instruction,
    choice: Option<KernelChoice>,
) -> Result<Seq<CommandView>, LoweringError> {
    match inst {
        Instruction::Embed(out) => Ok(seq![embed_command(s, out)]),
        Instruction::RmsNorm(input, out, layer) => Ok(
            seq![rms_norm_command(s, input, out, layer)],
        ),
        Instruction::FusedAddRmsNorm(delta, residual, layer) => Ok(
            seq![fused_add_rms_norm_command(s, delta, residual, layer)],
        ),
        Instruction::Gemm(input, out, layer, n, k) => Ok(
            seq![gemm_command(s, input, out, layer, n, k)],
        ),
        Instruction::AffineQmm(input, out, layer, n, k, _, _, _) => Ok(
            affine_qmm_commands(s, input, out, layer, n, k, choice),
        ),
        Instruction::SiluMul(gate, up, out) => Ok(seq![silu_mul_command(s, gate, up, out)]),
        Instruction::AffineEmbed(out, group_size, _) => Ok(
            seq![affine_embed_command(s, out, group_size)],
        ),
        Instruction::FusedGateUpSiluMul(input, out, layer) => Ok(
            seq![fused_gate_up_silu_mul_command(s, input, out, layer)],
        ),
        Instruction::RopeAppend(_, _, _, q_out, k_out, v_out, layer, _) => Ok(
            seq![rope_append_command(s, q_out, k_out, v_out, layer)],
        ),
        Instruction::FusedQkvRopeCache(input, out, layer, _, _) => Ok(
            seq![fused_qkv_rope_cache_command(s, input, out, layer)],
        ),
        Instruction::SynthPreAttn(residual, delta, q_out, layer, _, _, symbol, bias) => Ok(
            seq![synth_pre_attn_command(s, residual, delta, q_out, layer, symbol, bias)],
        ),
        Instruction::SynthMlpPreDown(residual, delta, out, layer, _, _, symbol) => Ok(
            seq![synth_mlp_pre_down_command(s, residual, delta, out, layer, symbol)],
        ),
        Instruction::SynthGateUpSiluMul(x_norm, out, layer, _, _, symbol) => Ok(
            seq![synth_gate_up_silu_mul_command(s, x_norm, out, layer, symbol)],
        ),
        Instruction::AttentionViaCache(q, out, layer, _) => Ok(
            seq![attention_via_cache_command(s, q, out, layer)],
        ),
        Instruction::AttentionPrefillPaged(q, out, layer, _) => Ok(
            seq![attention_prefill_paged_command(s, q, out, layer)],
        ),
        Instruction::Add(delta, residual) => Ok(seq![add_command(s, delta, residual)]),
        Instruction::ScalarMul(input, out, _) => Ok(seq![scalar_mul_command(s, input, out)]),
        Instruction::MetalBiasAdd(input, out, layer, n, is_affine) => Ok(
            seq![bias_add_command(s, input, out, layer, n, is_affine)],
        ),
        Instruction::Other(variant_type) => Err(
            LoweringError::UnsupportedVariant { index: s.index, variant_type },
        ),
        _ => Ok(Seq::empty()),
    }
}

/// Split-K scratch bytes that one instruction asks for.
pub open spec fn instruction_scratch(
    s: LowerSite,
    inst: Instruction,
    choice: Option<KernelChoice>,
) -> u32 {
    match (inst, choice) {
        (
            Instruction::AffineQmm(_, _, _, n, _, _, _, _),
            Some(KernelChoice::QmmT(c)),
        ) => match c.kernel {
            QmmTKernel::SplitK { split_k, .. } => splitk_bytes(split_k, s.bucket_m, n),
            _ => 0,
        },
        _ => 0,
    }
}

/// The larger of two scratch sizes.
pub open spec fn larger(a: u32, b: u32) -> u32 {
    if a >= b {
        a
    } else {
        b
    }
}

/// What a picker is asked for `inst` at `s`; nothing unless it is a quantized
/// product. Fewer rows than the product's vector limit ask for a
/// matrix-vector kernel.
pub open spec fn query_of(s: LowerSite, inst: Instruction) -> Option<KernelQuery> {
    let dtype = dequant_dtype(s.params.metal_dtype);
    match inst {
        Instruction::AffineQmm(_, _, _, n, k, group_size, bits, vector_limit) => Some(
            if s.bucket_m < vector_limit {
                KernelQuery::Qmv {
                    m: s.bucket_m,
                    n,
                    k,
                    group_size,
                    bits,
                    dtype,
                    scale_dtype: ScaleDtype::F16,
                }
            } else {
                KernelQuery::QmmT {
                    m: s.bucket_m,
                    n,
                    k,
                    group_size,
                    bits,
                    dtype,
                    scale_dtype: ScaleDtype::F16,
                }
            },
        ),
        _ => None,
    }
}

/// Returns what a picker has to be asked for `inst`. The choice that
/// `lower_one` takes for it has the same kind.
pub fn kernel_query(s: LowerSite, inst: &Instruction) -> (q: Option<KernelQuery>)
    requires
        *inst is AffineQmm ==> s.dtype_wired(),
    ensures
        q == query_of(s, *inst),
{
    match *inst {
        Instruction::AffineQmm(_, _, _, n, k, group_size, bits, vector_limit) => {
            let dtype = dequant_dtype_for(s.params.metal_dtype);
            let scale_dtype = scale_dtype_for();
            let m: u32 = s.bucket_m;
            if m < vector_limit {
                Some(KernelQuery::Qmv { m, n, k, group_size, bits, dtype, scale_dtype })
            } else {
                Some(KernelQuery::QmmT { m, n, k, group_size, bits, dtype, scale_dtype })
            }
        },
        _ => None,
    }
}

/// A lowering result by its views.
pub open spec fn result_views(r: Result<Vec<LoweredCommand>, LoweringError>) -> Result<
    Seq<CommandView>,
    LoweringError,
> {
    match r {
        Ok(commands) => Ok(command_views(commands@)),
        Err(e) => Err(e),
    }
}

/// Lowers a quantized product on the picked kernel. A split-K kernel gives two
/// commands and raises the scratch size.
fn lower_affine_qmm(
    s: LowerSite,
    in_slot: u32,
    out_slot: u32,
    layer: u32,
    n: u32,
    k: u32,
    choice: KernelChoice,
    splitk_scratch_bytes: &mut u32,
) -> (v: Vec<LoweredCommand>)
    requires
        s.dtype_wired(),
        s.layer_fits(layer),
    ensures
        command_views(v@) == affine_qmm_commands(s, in_slot, out_slot, layer, n, k, Some(choice)),
        *final(splitk_scratch_bytes) == larger(
            *old(splitk_scratch_bytes),
            match choice {
                KernelChoice::QmmT(c) => match c.kernel {
                    QmmTKernel::SplitK { split_k, .. } => splitk_bytes(split_k, s.bucket_m, n),
                    _ => 0,
                },
                _ => 0,
            },
        ),
{
    let mut v: Vec<LoweredCommand> = Vec::new();
    match choice {
        KernelChoice::Qmv(c) => {
            let scaling = s.scaling(MScaleAxis::X);
            let l = s.layer(layer);
            v.push(lower_qmv(c, scaling, in_slot, out_slot, l, s.locator(0), n, k));
        },
        KernelChoice::QmmT(c) => match c.kernel {
            QmmTKernel::SplitK { split_k, k_partition_size } => {
                let elem_bytes: u32 = elem_size_bytes(dequant_dtype_for(s.params.metal_dtype));
                let scratch: u32 = splitk_scratch_for(split_k, s.bucket_m, n, elem_bytes);
                *splitk_scratch_bytes = max_u32(*splitk_scratch_bytes, scratch);
                v.push(lower_splitk(s, c, k_partition_size, in_slot, layer, n, k));
                v.push(lower_splitk_reduce(s, c.reduce_function, split_k, out_slot, n));
            },
            _ => {
                v.push(lower_qmm_t(s, c, in_slot, out_slot, layer, n, k));
            },
        },
    }
    assert(command_views(v@) =~= affine_qmm_commands(
        s,
        in_slot,
        out_slot,
        layer,
        n,
        k,
        Some(choice),
    ));
    v
}

/// Lowers one instruction other than a loop. Most give one command,
/// instructions that only rebind slots give none, and a split-K product gives
/// two. `splitk_scratch_bytes` is raised to what the instruction asks for.
pub fn lower_one(
    s: LowerSite,
    inst: &Instruction,
    choice: Option<KernelChoice>,
    splitk_scratch_bytes: &mut u32,
) -> (r: Result<Vec<LoweredCommand>, LoweringError>)
    requires
        lowerable(s, *inst, choice),
    ensures
        result_views(r) == instruction_commands(s, *inst, choice),
        *final(splitk_scratch_bytes) == larger(
            *old(splitk_scratch_bytes),
            instruction_scratch(s, *inst, choice),
        ),
{
    let command = match *inst {
        Instruction::Embed(out) => lower_embed(s, out),
        Instruction::RmsNorm(input, out, layer) => lower_rms_norm(s, input, out, layer),
        Instruction::FusedAddRmsNorm(delta, residual, layer) => lower_fused_add_rms_norm(
            s,
            delta,
            residual,
            layer,
        ),
        Instruction::Gemm(input, out, layer, n, k) => lower_gemm(s, input, out, layer, n, k),
        Instruction::AffineQmm(input, out, layer, n, k, _, _, _) => {
            match choice {
                Some(c) => {
                    return Ok(
                        lower_affine_qmm(s, input, out, layer, n, k, c, splitk_scratch_bytes),
                    );
                },
                None => {
                    return Ok(Vec::new());
                },
            }
        },
        Instruction::SiluMul(gate, up, out) => lower_silu_mul(s, gate, up, out),
        Instruction::AffineEmbed(out, group_size, bits) => lower_affine_embed(
            s,
            out,
            group_size,
            bits,
        ),
        Instruction::FusedGateUpSiluMul(input, out, layer) => lower_fused_gate_up_silu_mul(
            s,
            input,
            out,
            layer,
        ),
        Instruction::RopeAppend(_, _, _, q_out, k_out, v_out, layer, _) => lower_rope_append(
            s,
            q_out,
            k_out,
            v_out,
            layer,
        ),
        Instruction::FusedQkvRopeCache(input, out, layer, biased, interleaved) =>
        lower_fused_qkv_rope_cache(s, input, out, layer, biased, interleaved),
        Instruction::SynthPreAttn(residual, delta, q_out, layer, _, bits, symbol, bias) =>
        lower_synth_pre_attn(s, residual, delta, q_out, layer, bits, symbol, bias),
        Instruction::SynthMlpPreDown(residual, delta, out, layer, _, bits, symbol) =>
        lower_synth_mlp_pre_down(s, residual, delta, out, layer, bits, symbol),
        Instruction::SynthGateUpSiluMul(x_norm, out, layer, _, _, symbol) =>
        lower_synth_gate_up_silu_mul(s, x_norm, out, layer, symbol),
        Instruction::AttentionViaCache(q, out, layer, _) => lower_attention_via_cache(
            s,
            q,
            out,
            layer,
        ),
        Instruction::AttentionPrefillPaged(q, out, layer, _) => lower_attention_prefill_paged(
            s,
            q,
            out,
            layer,
        ),
        Instruction::Add(delta, residual) => lower_add(s, delta, residual),
        Instruction::ScalarMul(input, out, _) => lower_scalar_mul(s, input, out),
        Instruction::MetalBiasAdd(input, out, layer, n, is_affine) => lower_bias_add(
            s,
            input,
            out,
            layer,
            n,
            is_affine,
        ),
        Instruction::Other(variant_type) => {
            return Err(LoweringError::UnsupportedVariant { index: s.index, variant_type });
        },
        _ => {
            let none: Vec<LoweredCommand> = Vec::new();
            assert(command_views(none@) =~= Seq::empty());
            return Ok(none);
        },
    };
    let ghost view = command@;
    let v = vec![command];
    assert(command_views(v@) =~= seq![view]);
    Ok(v)
}

// ---- One tape ----

/// What all instructions of one tape share.
#[derive(Clone, Copy, Debug, PartialEq, Eq)]
pub struct TapeSite {
    /// Parameters of the model.
    pub params: CanonicalParams,
    /// Whether prefill attention goes to the steel kernel.
    pub steel_attention: bool,
    /// Tokens of the bucket.
    pub bucket_m: u32,
    /// Tape that weight locators refer to.
    pub tape_index: u32,
}

impl TapeSite {
    pub open spec fn spec_at(self, index: usize, layer_offset: u32) -> LowerSite {
        LowerSite {
            params: self.params,
            steel_attention: self.steel_attention,
            bucket_m: self.bucket_m,
            tape_index: self.tape_index,
            index,
            layer_offset,
        }
    }

    /// The site of instruction `index` in iteration `layer_offset`.
    #[verifier::when_used_as_spec(spec_at)]
    pub fn at(self, index: usize, layer_offset: u32) -> (s: LowerSite)
        ensures
            s == self.spec_at(index, layer_offset),
    {
        LowerSite {
            params: self.params,
            steel_attention: self.steel_attention,
            bucket_m: self.bucket_m,
            tape_index: self.tape_index,
            index,
            layer_offset,
        }
    }
}

/// One step of a walk over a tape.
pub enum Step {
    /// Lower the instruction at `index` for iteration `layer_offset`.
    Lower { index: int, layer_offset: int },
    /// The loop at `index` names more instructions than the `remaining` ones.
    Malformed { index: int, count: u32, body_len: u32, remaining: int },
}

/// The body of a loop, once, for iteration `iter`.
pub open spec fn iteration_steps(body_start: int, body_len: int, iter: int) -> Seq<Step> {
    Seq::new(
        body_len as nat,
        |j: int| Step::Lower { index: body_start + j, layer_offset: iter },
    )
}

/// The body of a loop for the iterations from `iter` up to `count`.
pub open spec fn loop_steps(body_start: int, body_len: int, iter: int, count: int) -> Seq<Step>
    decreases count - iter,
{
    if iter >= count {
        Seq::empty()
    } else {
        iteration_steps(body_start, body_len, iter) + loop_steps(
            body_start,
            body_len,
            iter + 1,
            count,
        )
    }
}

/// The walk over a tape from instruction `i` on, loops unrolled. A malformed
/// loop ends it.
pub open spec fn schedule_from(instructions: Seq<Instruction>, i: int) -> Seq<Step>
    decreases instructions.len() - i,
{
    if i < 0 || i >= instructions.len() {
        Seq::empty()
    } else {
        match instructions[i] {
            Instruction::Loop(count, body_len) => {
                let end = i + 1 + body_len;
                if end > instructions.len() {
                    seq![
                        Step::Malformed {
                            index: i,
                            count,
                            body_len,
                            remaining: instructions.len() - (i + 1),
                        },
                    ]
                } else {
                    loop_steps(i + 1, body_len as int, 0, count as int) + schedule_from(
                        instructions,
                        end,
                    )
                }
            },
            _ => seq![Step::Lower { index: i, layer_offset: 0 }] + schedule_from(
                instructions,
                i + 1,
            ),
        }
    }
}

/// The walk over a tape, loops unrolled.
pub open spec fn schedule(instructions: Seq<Instruction>) -> Seq<Step> {
    schedule_from(instructions, 0)
}

/// What the steps walked so far have produced.
pub struct Produced {
    pub commands: Seq<CommandView>,
    pub barriers: Seq<bool>,
    pub scratch: u32,
}

impl Produced {
    /// Nothing yet.
    pub open spec fn none() -> Produced {
        Produced { commands: Seq::empty(), barriers: Seq::empty(), scratch: 0 }
    }

    /// This, followed by `next`. Scratch is shared, so its size is the larger.
    pub open spec fn plus(self, next: Produced) -> Produced {
        Produced {
            commands: self.commands + next.commands,
            barriers: self.barriers + next.barriers,
            scratch: larger(self.scratch, next.scratch),
        }
    }
}

/// Everything that the lowering of one tape reads.
pub struct Inputs {
    pub site: TapeSite,
    pub instructions: Seq<Instruction>,
    pub choices: Seq<Option<KernelChoice>>,
    pub barriers: Seq<bool>,
}

impl Inputs {
    /// The choice for instruction `index`, if one was given.
    pub open spec fn choice(self, index: int) -> Option<KernelChoice> {
        if 0 <= index < self.choices.len() {
            self.choices[index]
        } else {
            None
        }
    }

    /// The barrier flag of instruction `index`; it is set where none was given.
    pub open spec fn flag(self, index: int) -> bool {
        if 0 <= index < self.barriers.len() {
            self.barriers[index]
        } else {
            true
        }
    }

    /// A step is defined: it is a malformed loop, or its instruction can be
    /// lowered in its iteration.
    pub open spec fn step_defined(self, step: Step) -> bool {
        match step {
            Step::Lower { index, layer_offset } => lowerable(
                self.site.at(index as usize, layer_offset as u32),
                self.instructions[index],
                self.choice(index),
            ),
            Step::Malformed { .. } => true,
        }
    }

    /// What one step produces. The first command of an instruction takes the
    /// instruction's barrier flag; the further ones read what the first wrote
    /// and always have a barrier.
    #[verifier::opaque]
    pub open spec fn step_result(self, step: Step) -> Result<Produced, LoweringError> {
        match step {
            Step::Lower { index, layer_offset } => {
                let s = self.site.at(index as usize, layer_offset as u32);
                match instruction_commands(s, self.instructions[index], self.choice(index)) {
                    Ok(commands) => Ok(
                        Produced {
                            commands,
                            barriers: Seq::new(
                                commands.len(),
                                |i: int| i > 0 || self.flag(index),
                            ),
                            scratch: instruction_scratch(
                                s,
                                self.instructions[index],
                                self.choice(index),
                            ),
                        },
                    ),
                    Err(e) => Err(e),
                }
            },
            Step::Malformed { index, count, body_len, remaining } => Err(
                LoweringError::MalformedLoop {
                    index: index as usize,
                    count,
                    body_len,
                    remaining: remaining as usize,
                },
            ),
        }
    }

    /// What a walk produces: everything its steps produce, in order, or the
    /// error of the first step that fails.
    pub open spec fn walk(self, steps: Seq<Step>) -> Result<Produced, LoweringError>
        decreases steps.len(),
    {
        if steps.len() == 0 {
            Ok(Produced::none())
        } else {
            match self.walk(steps.drop_last()) {
                Ok(done) => match self.step_result(steps.last()) {
                    Ok(next) => Ok(done.plus(next)),
                    Err(e) => Err(e),
                },
                Err(e) => Err(e),
            }
        }
    }

    /// Every step that the walk reaches is defined.
    pub open spec fn walk_defined(self, steps: Seq<Step>) -> bool {
        forall|k: int|
            #![trigger steps[k]]
            0 <= k < steps.len() && self.walk(steps.take(k)) is Ok ==> self.step_defined(steps[k])
    }

    /// Lowering the whole tape is defined.
    pub open spec fn defined(self) -> bool {
        self.walk_defined(schedule(self.instructions))
    }

    /// What lowering the whole tape produces.
    pub open spec fn result(self) -> Result<Produced, LoweringError> {
        self.walk(schedule(self.instructions))
    }
}

/// A tape without gated commands.
pub open spec fn plain_tape(bucket_m: u32, num_arena_slots: u32, p: Produced) -> TapeView {
    TapeView {
        bucket_m,
        num_arena_slots,
        commands: p.commands,
        barrier_before: p.barriers,
        runtime_gate: Seq::new(p.commands.len(), |i: int| None),
        splitk_scratch_bytes: p.scratch,
        moe_scratch_bytes: 0,
    }
}

/// A lowered tape by its view.
pub open spec fn tape_view(r: Result<LoweredMetalTape, LoweringError>) -> Result<
    TapeView,
    LoweringError,
> {
    match r {
        Ok(tape) => Ok(tape@),
        Err(e) => Err(e),
    }
}

/// A walk that fails stays failed, whatever would follow.
pub proof fn lemma_walk_error(inputs: Inputs, done: Seq<Step>, rest: Seq<Step>)
    requires
        inputs.walk(done) is Err,
    ensures
        inputs.walk(done + rest) == inputs.walk(done),
    decreases rest.len(),
{
    if rest.len() == 0 {
        assert(done + rest =~= done);
    } else {
        lemma_walk_error(inputs, done, rest.drop_last());
        assert((done + rest).drop_last() =~= done + rest.drop_last());
    }
}

/// What is left of a loop body starts with the next instruction.
proof fn lemma_body_split(body_start: int, body_len: int, iter: int, offset: int)
    requires
        0 <= offset < body_len,
    ensures
        iteration_steps(body_start, body_len, iter).skip(offset) == seq![
            Step::Lower { index: body_start + offset, layer_offset: iter },
        ] + iteration_steps(body_start, body_len, iter).skip(offset + 1),
{
    let body = iteration_steps(body_start, body_len, iter);
    assert(body.skip(offset) =~= seq![
        Step::Lower { index: body_start + offset, layer_offset: iter },
    ] + body.skip(offset + 1));
}

/// One more step of a walk that has not failed: the step is defined, and the
/// walk goes on with what the step produces or ends with its error.
proof fn lemma_walk_step(
    inputs: Inputs,
    steps: Seq<Step>,
    done: Seq<Step>,
    step: Step,
    rest: Seq<Step>,
)
    requires
        inputs.walk_defined(steps),
        steps == done + (seq![step] + rest),
        inputs.walk(done) is Ok,
    ensures
        inputs.step_defined(step),
        steps == done.push(step) + rest,
        match inputs.step_result(step) {
            Ok(next) => inputs.walk(done.push(step)) == Ok::<Produced, LoweringError>(
                inputs.walk(done)->Ok_0.plus(next),
            ),
            Err(e) => inputs.walk(steps) == Err::<Produced, LoweringError>(e),
        },
{
    let at = done.len() as int;
    assert(steps[at] == step);
    assert(steps.take(at) =~= done);
    assert(done.push(step).drop_last() =~= done);
    assert(steps =~= done.push(step) + rest);
    if inputs.step_result(step) is Err {
        lemma_walk_error(inputs, done.push(step), rest);
    }
}

/// The commands produced so far, with their barrier flags and the scratch
/// size.
struct Accumulator {
    commands: Vec<LoweredCommand>,
    barrier_before: Vec<bool>,
    splitk_scratch_bytes: u32,
}

impl Accumulator {
    spec fn produced(self) -> Produced {
        Produced {
            commands: command_views(self.commands@),
            barriers: self.barrier_before@,
            scratch: self.splitk_scratch_bytes,
        }
    }
}

/// Lowers one instruction of a tape and appends its commands.
fn lower_step(
    site: TapeSite,
    instructions: &[Instruction],
    choices: &[Option<KernelChoice>],
    barriers_in: &[bool],
    index: usize,
    layer_offset: u32,
    acc: &mut Accumulator,
) -> (r: Result<(), LoweringError>)
    requires
        index < instructions@.len(),
        (Inputs {
            site,
            instructions: instructions@,
            choices: choices@,
            barriers: barriers_in@,
        }).step_defined(Step::Lower { index: index as int, layer_offset: layer_offset as int }),
    ensures
        match (Inputs {
            site,
            instructions: instructions@,
            choices: choices@,
            barriers: barriers_in@,
        }).step_result(Step::Lower { index: index as int, layer_offset: layer_offset as int }) {
            Ok(next) => r is Ok && final(acc).produced() == old(acc).produced().plus(next),
            Err(e) => r == Err::<(), LoweringError>(e),
        },
{
    let ghost inputs = Inputs {
        site,
        instructions: instructions@,
        choices: choices@,
        barriers: barriers_in@,
    };
    let choice: Option<KernelChoice> = if index < choices.len() {
        choices[index]
    } else {
        None
    };
    let flag: bool = if index < barriers_in.len() {
        barriers_in[index]
    } else {
        true
    };
    proof {
        reveal(Inputs::step_result);
    }
    let mut scratch: u32 = acc.splitk_scratch_bytes;
    let s = site.at(index, layer_offset);
    match lower_one(s, &instructions[index], choice, &mut scratch) {
        Err(e) => Err(e),
        Ok(mut commands) => {
            let n: usize = commands.len();
            let ghost next = inputs.step_result(
                Step::Lower { index: index as int, layer_offset: layer_offset as int },
            )->Ok_0;
            let ghost before = acc.commands@;
            let ghost added = commands@;
            acc.commands.append(&mut commands);
            assert(command_views(acc.commands@) =~= command_views(before) + command_views(added));
            acc.splitk_scratch_bytes = scratch;
            let ghost flags = acc.barrier_before@;
            let mut i: usize = 0;
            while i < n
                invariant
                    i <= n,
                    acc.barrier_before@ == flags + Seq::new(i as nat, |j: int| j > 0 || flag),
                    acc.commands@ == before + added,
                    acc.splitk_scratch_bytes == scratch,
                decreases n - i,
            {
                acc.barrier_before.push(i > 0 || flag);
                assert(acc.barrier_before@ =~= flags + Seq::new(
                    (i + 1) as nat,
                    |j: int| j > 0 || flag,
                ));
                i += 1;
            }
            assert(acc.barrier_before@ =~= flags + next.barriers);
            assert(acc.commands@ =~= before + added);
            Ok(())
        },
    }
}

/// Lowers the body of a loop once and appends its commands.
fn lower_body(
    site: TapeSite,
    instructions: &[Instruction],
    choices: &[Option<KernelChoice>],
    barriers_in: &[bool],
    body_start: usize,
    body_len: usize,
    iter: u32,
    acc: &mut Accumulator,
    Ghost(steps): Ghost<Seq<Step>>,
    Ghost(before): Ghost<Seq<Step>>,
    Ghost(later): Ghost<Seq<Step>>,
) -> (r: Result<(), LoweringError>)
    requires
        body_start + body_len <= instructions@.len(),
        (Inputs {
            site,
            instructions: instructions@,
            choices: choices@,
            barriers: barriers_in@,
        }).walk_defined(steps),
        steps == before + (iteration_steps(body_start as int, body_len as int, iter as int)
            + later),
        (Inputs {
            site,
            instructions: instructions@,
            choices: choices@,
            barriers: barriers_in@,
        }).walk(before) == Ok::<Produced, LoweringError>(old(acc).produced()),
    ensures
        match r {
            Ok(()) => (Inputs {
                site,
                instructions: instructions@,
                choices: choices@,
                barriers: barriers_in@,
            }).walk(
                before + iteration_steps(body_start as int, body_len as int, iter as int),
            ) == Ok::<Produced, LoweringError>(final(acc).produced()),
            Err(e) => (Inputs {
                site,
                instructions: instructions@,
                choices: choices@,
                barriers: barriers_in@,
            }).walk(steps) == Err::<Produced, LoweringError>(e),
        },
{
    let ghost inputs = Inputs {
        site,
        instructions: instructions@,
        choices: choices@,
        barriers: barriers_in@,
    };
    let ghost body = iteration_steps(body_start as int, body_len as int, iter as int);
    let len: usize = instructions.len();
    let mut offset: usize = 0;
    proof {
        assert(before + body.take(0) =~= before);
        assert(body.skip(0) =~= body);
    }
    while offset < body_len
        invariant
            body_start + body_len <= len,
            len == instructions@.len(),
            offset <= body_len,
            inputs == (Inputs {
                site,
                instructions: instructions@,
                choices: choices@,
                barriers: barriers_in@,
            }),
            body == iteration_steps(body_start as int, body_len as int, iter as int),
            inputs.walk_defined(steps),
            steps == before + body.take(offset as int) + (body.skip(offset as int) + later),
            inputs.walk(before + body.take(offset as int)) == Ok::<Produced, LoweringError>(
                acc.produced(),
            ),
        decreases body_len - offset,
    {
        let index: usize = body_start + offset;
        let ghost done = before + body.take(offset as int);
        let ghost rest = body.skip(offset + 1) + later;
        let ghost step = Step::Lower { index: index as int, layer_offset: iter as int };
        proof {
            lemma_body_split(body_start as int, body_len as int, iter as int, offset as int);
            assert(body.skip(offset as int) + later =~= seq![step] + rest);
            lemma_walk_step(inputs, steps, done, step, rest);
            assert(done.push(step) =~= before + body.take(offset + 1));
        }
        if let Err(e) = lower_step(
            site,
            instructions,
            choices,
            barriers_in,
            index,
            iter,
            acc,
        ) {
            return Err(e);
        }
        offset += 1;
    }
    assert(body.take(offset as int) =~= body);
    Ok(())
}

/// Lowers one tape. Loops are unrolled, with the iteration number added to the
/// layers of the body; a loop that names more instructions than follow it is
/// refused.
pub fn lower(
    site: TapeSite,
    instructions: &[Instruction],
    choices: &[Option<KernelChoice>],
    barriers_in: &[bool],
    num_arena_slots: u32,
) -> (r: Result<LoweredMetalTape, LoweringError>)
    requires
        (Inputs {
            site,
            instructions: instructions@,
            choices: choices@,
            barriers: barriers_in@,
        }).defined(),
    ensures
        tape_view(r) == match (Inputs {
            site,
            instructions: instructions@,
            choices: choices@,
            barriers: barriers_in@,
        }).result() {
            Ok(p) => Ok(plain_tape(site.bucket_m, num_arena_slots, p)),
            Err(e) => Err(e),
        },
        r matches Ok(tape) ==> tape@.wf(),
{
    let ghost inputs = Inputs {
        site,
        instructions: instructions@,
        choices: choices@,
        barriers: barriers_in@,
    };
    let ghost steps = schedule(instructions@);
    let ghost mut done: Seq<Step> = Seq::empty();
    let mut acc = Accumulator {
        commands: Vec::new(),
        barrier_before: Vec::new(),
        splitk_scratch_bytes: 0,
    };
    let len: usize = instructions.len();
    let mut i: usize = 0;
    assert(command_views(acc.commands@) =~= Seq::empty());
    assert(steps =~= done + schedule_from(instructions@, 0));
    while i < len
        invariant
            len == instructions@.len(),
            i <= len,
            inputs == (Inputs {
                site,
                instructions: instructions@,
                choices: choices@,
                barriers: barriers_in@,
            }),
            steps == schedule(instructions@),
            inputs.walk_defined(steps),
            steps == done + schedule_from(instructions@, i as int),
            inputs.walk(done) == Ok::<Produced, LoweringError>(acc.produced()),
        decreases len - i,
    {
        match instructions[i] {
            Instruction::Loop(count, body_len) => {
                let body_start: usize = i + 1;
                let body_len_usize: usize = body_len as usize;
                if body_len_usize > len - body_start {
                    let remaining: usize = len - body_start;
                    let ghost step = Step::Malformed {
                        index: i as int,
                        count,
                        body_len,
                        remaining: remaining as int,
                    };
                    proof {
                        reveal(Inputs::step_result);
                    }
                    assert(steps =~= done.push(step));
                    assert(done.push(step).drop_last() =~= done);
                    return Err(
                        LoweringError::MalformedLoop { index: i, count, body_len, remaining },
                    );
                }
                let body_end: usize = body_start + body_len_usize;
                let ghost tail = schedule_from(instructions@, body_end as int);
                let mut iter: u32 = 0;
                assert(steps =~= done + loop_steps(
                    body_start as int,
                    body_len as int,
                    0,
                    count as int,
                ) + tail);
                while iter < count
                    invariant
                        len == instructions@.len(),
                        iter <= count,
                        body_end <= len,
                        body_end == body_start + body_len,
                        body_len_usize == body_len,
                        inputs == (Inputs {
                            site,
                            instructions: instructions@,
                            choices: choices@,
                            barriers: barriers_in@,
                        }),
                        steps == schedule(instructions@),
                        inputs.walk_defined(steps),
                        steps == done + loop_steps(
                            body_start as int,
                            body_len as int,
                            iter as int,
                            count as int,
                        ) + tail,
                        inputs.walk(done) == Ok::<Produced, LoweringError>(acc.produced()),
                    decreases count - iter,
                {
                    let ghost body = iteration_steps(
                        body_start as int,
                        body_len as int,
                        iter as int,
                    );
                    let ghost later = loop_steps(
                        body_start as int,
                        body_len as int,
                        iter + 1,
                        count as int,
                    ) + tail;
                    assert(steps =~= done + (body + later));
                    if let Err(e) = lower_body(
                        site,
                        instructions,
                        choices,
                        barriers_in,
                        body_start,
                        body_len_usize,
                        iter,
                        &mut acc,
                        Ghost(steps),
                        Ghost(done),
                        Ghost(later),
                    ) {
                        return Err(e);
                    }
                    proof {
                        done = done + body;
                    }
                    assert(steps =~= done + later);
                    iter += 1;
                    assert(steps =~= done + loop_steps(
                        body_start as int,
                        body_len as int,
                        iter as int,
                        count as int,
                    ) + tail);
                }
                assert(steps =~= done + tail);
                i = body_end;
            },
            _ => {
                let ghost step = Step::Lower { index: i as int, layer_offset: 0 };
                let ghost tail = schedule_from(instructions@, i + 1);
                proof {
                    lemma_walk_step(inputs, steps, done, step, tail);
                }
                if let Err(e) = lower_step(
                    site,
                    instructions,
                    choices,
                    barriers_in,
                    i,
                    0,
                    &mut acc,
                ) {
                    return Err(e);
                }
                proof {
                    done = done.push(step);
                }
                i += 1;
            },
        }
    }
    assert(steps =~= done);
    proof {
        lemma_walk_parallel(inputs, steps);
    }
    let n: usize = acc.commands.len();
    let runtime_gate = ungated(n);
    assert(runtime_gate@ =~= plain_tape(
        site.bucket_m,
        num_arena_slots,
        acc.produced(),
    ).runtime_gate);
    Ok(
        LoweredMetalTape {
            bucket_m: site.bucket_m,
            num_arena_slots,
            commands: acc.commands,
            barrier_before: acc.barrier_before,
            runtime_gate,
            splitk_scratch_bytes: acc.splitk_scratch_bytes,
            moe_scratch_bytes: 0,
        },
    )
}

/// `n` commands that always run.
fn ungated(n: usize) -> (v: Vec<Option<RuntimeGate>>)
    ensures
        v@ == Seq::new(n as nat, |i: int| None::<RuntimeGate>),
{
    let mut v: Vec<Option<RuntimeGate>> = Vec::new();
    let mut i: usize = 0;
    while i < n
        invariant
            i <= n,
            v@ == Seq::new(i as nat, |j: int| None::<RuntimeGate>),
        decreases n - i,
    {
        v.push(None);
        i += 1;
        assert(v@ =~= Seq::new(i as nat, |j: int| None::<RuntimeGate>));
    }
    v
}

// ---- Backbone and language-model head ----

/// The language-model head can be sliced: the slice is on, the bucket holds
/// several tokens, and the head is one quantized product that lowered to one
/// one-pass matrix command.
pub open spec fn slice_applies(
    bucket_m: u32,
    lm_head: Seq<Instruction>,
    head: Seq<CommandView>,
    slice: Option<QmvChoice>,
) -> bool {
    &&& slice is Some
    &&& bucket_m > 1
    &&& lm_head.len() == 1
    &&& lm_head[0] is AffineQmm
    &&& head.len() == 1
    &&& (head[0].kernel is AffineQmmT || head[0].kernel is AffineQmmTNax)
}

/// The sliced head: the last token's hidden state goes to row 0, a
/// matrix-vector product for one row computes its logits, and these go to the
/// last token's row.
pub open spec fn slice_commands(
    params: CanonicalParams,
    lm_head_tape_index: u32,
    product: Instruction,
    choice: QmvChoice,
) -> Seq<CommandView> {
    match product {
        Instruction::AffineQmm(in_slot, out_slot, layer, n, k, _, _, _) => seq![
            gather_last_token_view(params.metal_dtype, in_slot, k),
            qmv_command(
                choice,
                None,
                in_slot,
                out_slot,
                LayerId(layer),
                WeightLocator { bucket: lm_head_tape_index, op_idx: 0, slot: 0 },
                n,
                k,
            ),
            scatter_first_to_last_row_view(params.metal_dtype, out_slot, n),
        ],
        _ => Seq::empty(),
    }
}

/// A backbone and a head as one tape. A sliced head comes as the slice, which
/// runs for a single sequence, followed by the full head, which runs for
/// several: the slice computes the logits of the last token only.
pub open spec fn joined_tape(
    site: TapeSite,
    num_arena_slots: u32,
    backbone: Produced,
    lm_head: Seq<Instruction>,
    lm_head_tape_index: u32,
    head: Produced,
    slice: Option<QmvChoice>,
) -> TapeView {
    let sliced = slice_applies(site.bucket_m, lm_head, head.commands, slice);
    let ungated = Seq::new(backbone.commands.len(), |i: int| None::<RuntimeGate>);
    TapeView {
        bucket_m: site.bucket_m,
        num_arena_slots,
        commands: if sliced {
            backbone.commands + slice_commands(
                site.params,
                lm_head_tape_index,
                lm_head[0],
                slice->0,
            ) + head.commands
        } else {
            backbone.commands + head.commands
        },
        barrier_before: if sliced {
            backbone.barriers + seq![true, head.barriers[0], true] + head.barriers
        } else {
            backbone.barriers + head.barriers
        },
        runtime_gate: if sliced {
            ungated + seq![
                Some(RuntimeGate::OnlyIfSingleSeq),
                Some(RuntimeGate::OnlyIfSingleSeq),
                Some(RuntimeGate::OnlyIfSingleSeq),
                Some(RuntimeGate::OnlyIfMultiSeq),
            ]
        } else {
            ungated + Seq::new(head.commands.len(), |i: int| None::<RuntimeGate>)
        },
        splitk_scratch_bytes: larger(backbone.scratch, head.scratch),
        moe_scratch_bytes: 0,
    }
}

/// What a picker is asked for the sliced head: a matrix-vector kernel for one
/// row. Nothing unless the head is one quantized product.
pub open spec fn slice_query_of(
    params: CanonicalParams,
    lm_head: Seq<Instruction>,
) -> Option<KernelQuery> {
    if lm_head.len() == 1 {
        match lm_head[0] {
            Instruction::AffineQmm(_, _, _, n, k, group_size, bits, _) => Some(
                KernelQuery::Qmv {
                    m: 1,
                    n,
                    k,
                    group_size,
                    bits,
                    dtype: dequant_dtype(params.metal_dtype),
                    scale_dtype: ScaleDtype::F16,
                },
            ),
            _ => None,
        }
    } else {
        None
    }
}

/// Returns what a picker has to be asked for the sliced head.
pub fn slice_query(params: CanonicalParams, lm_head: &[Instruction]) -> (q: Option<KernelQuery>)
    requires
        params.metal_dtype !is Int4,
    ensures
        q == slice_query_of(params, lm_head@),
{
    if lm_head.len() != 1 {
        return None;
    }
    match lm_head[0] {
        Instruction::AffineQmm(_, _, _, n, k, group_size, bits, _) => Some(
            KernelQuery::Qmv {
                m: 1,
                n,
                k,
                group_size,
                bits,
                dtype: dequant_dtype_for(params.metal_dtype),
                scale_dtype: scale_dtype_for(),
            },
        ),
        _ => None,
    }
}

/// The matrix-vector product of the sliced head.
fn lm_head_qmv_command(
    choice: QmvChoice,
    in_slot: u32,
    out_slot: u32,
    layer: u32,
    locator: WeightLocator,
    n: u32,
    k: u32,
) -> (c: LoweredCommand)
    ensures
        c@ == qmv_command(choice, None, in_slot, out_slot, LayerId(layer), locator, n, k),
{
    lower_qmv(choice, None, in_slot, out_slot, LayerId(layer), locator, n, k)
}

/// Everything that the lowering of one bucket reads.
pub struct PairInputs {
    pub site: TapeSite,
    pub backbone: Seq<Instruction>,
    pub lm_head: Seq<Instruction>,
    pub backbone_choices: Seq<Option<KernelChoice>>,
    pub lm_head_choices: Seq<Option<KernelChoice>>,
    pub backbone_barriers: Seq<bool>,
    pub lm_head_barriers: Seq<bool>,
    pub num_arena_slots: u32,
    pub lm_head_tape_index: u32,
    pub slice: Option<QmvChoice>,
}

impl PairInputs {
    /// The backbone's half.
    pub open spec fn backbone_inputs(self) -> Inputs {
        Inputs {
            site: self.site,
            instructions: self.backbone,
            choices: self.backbone_choices,
            barriers: self.backbone_barriers,
        }
    }

    /// The head's half.
    pub open spec fn head_inputs(self) -> Inputs {
        Inputs {
            site: TapeSite { tape_index: self.lm_head_tape_index, ..self.site },
            instructions: self.lm_head,
            choices: self.lm_head_choices,
            barriers: self.lm_head_barriers,
        }
    }

    /// Lowering the bucket is defined.
    pub open spec fn defined(self) -> bool {
        &&& self.backbone_inputs().defined()
        &&& self.backbone_inputs().result() is Ok ==> self.head_inputs().defined()
    }

    /// The joined tape, or the backbone's error, or the head's.
    pub open spec fn result(self) -> Result<TapeView, LoweringError> {
        match self.backbone_inputs().result() {
            Err(e) => Err(e),
            Ok(b) => match self.head_inputs().result() {
                Err(e) => Err(e),
                Ok(h) => Ok(
                    joined_tape(
                        self.site,
                        self.num_arena_slots,
                        b,
                        self.lm_head,
                        self.lm_head_tape_index,
                        h,
                        self.slice,
                    ),
                ),
            },
        }
    }
}

/// Lowers the backbone and the language-model head of one bucket into one
/// tape. `slice`, if given, is the kernel of the sliced head, which is used
/// where it applies.
pub fn lower_pair(
    site: TapeSite,
    backbone: &[Instruction],
    lm_head: &[Instruction],
    backbone_choices: &[Option<KernelChoice>],
    lm_head_choices: &[Option<KernelChoice>],
    backbone_barriers: &[bool],
    lm_head_barriers: &[bool],
    num_arena_slots: u32,
    lm_head_tape_index: u32,
    slice: Option<QmvChoice>,
) -> (r: Result<LoweredMetalTape, LoweringError>)
    requires
        (PairInputs {
            site,
            backbone: backbone@,
            lm_head: lm_head@,
            backbone_choices: backbone_choices@,
            lm_head_choices: lm_head_choices@,
            backbone_barriers: backbone_barriers@,
            lm_head_barriers: lm_head_barriers@,
            num_arena_slots,
            lm_head_tape_index,
            slice,
        }).defined(),
    ensures
        tape_view(r) == (PairInputs {
            site,
            backbone: backbone@,
            lm_head: lm_head@,
            backbone_choices: backbone_choices@,
            lm_head_choices: lm_head_choices@,
            backbone_barriers: backbone_barriers@,
            lm_head_barriers: lm_head_barriers@,
            num_arena_slots,
            lm_head_tape_index,
            slice,
        }).result(),
        r matches Ok(tape) ==> tape@.wf(),
{
    let ghost bi = Inputs {
        site,
        instructions: backbone@,
        choices: backbone_choices@,
        barriers: backbone_barriers@,
    };
    let head_site = TapeSite {
        params: site.params,
        steel_attention: site.steel_attention,
        bucket_m: site.bucket_m,
        tape_index: lm_head_tape_index,
    };
    let ghost hi = Inputs {
        site: head_site,
        instructions: lm_head@,
        choices: lm_head_choices@,
        barriers: lm_head_barriers@,
    };
    let bb = match lower(site, backbone, backbone_choices, backbone_barriers, num_arena_slots) {
        Ok(tape) => tape,
        Err(e) => return Err(e),
    };
    let lh = match lower(
        head_site,
        lm_head,
        lm_head_choices,
        lm_head_barriers,
        num_arena_slots,
    ) {
        Ok(tape) => tape,
        Err(e) => return Err(e),
    };
    proof {
        lemma_walk_parallel(bi, schedule(backbone@));
        lemma_walk_parallel(hi, schedule(lm_head@));
        if lm_head@.len() == 1 && lm_head@[0] is AffineQmm {
            lemma_head_wired(hi);
        }
    }
    Ok(join_tapes(site, num_arena_slots, bb, lm_head, lm_head_tape_index, lh, slice))
}

/// What a tape without gates was made of.
pub open spec fn tape_produced(t: TapeView) -> Produced {
    Produced {
        commands: t.commands,
        barriers: t.barrier_before,
        scratch: t.splitk_scratch_bytes,
    }
}

/// Joins the lowered backbone and the lowered head into one tape.
fn join_tapes(
    site: TapeSite,
    num_arena_slots: u32,
    backbone: LoweredMetalTape,
    lm_head: &[Instruction],
    lm_head_tape_index: u32,
    head: LoweredMetalTape,
    slice: Option<QmvChoice>,
) -> (r: LoweredMetalTape)
    requires
        backbone@.wf(),
        backbone@.runtime_gate == Seq::new(backbone@.commands.len(), |i: int| None::<RuntimeGate>),
        head@.wf(),
        head@.runtime_gate == Seq::new(head@.commands.len(), |i: int| None::<RuntimeGate>),
        slice_applies(site.bucket_m, lm_head@, head@.commands, slice)
            ==> site.params.metal_dtype !is Int4,
    ensures
        r@ == joined_tape(
            site,
            num_arena_slots,
            tape_produced(backbone@),
            lm_head@,
            lm_head_tape_index,
            tape_produced(head@),
            slice,
        ),
{
    let ghost expected = joined_tape(
        site,
        num_arena_slots,
        tape_produced(backbone@),
        lm_head@,
        lm_head_tape_index,
        tape_produced(head@),
        slice,
    );
    let splitk_scratch_bytes: u32 = max_u32(
        backbone.splitk_scratch_bytes,
        head.splitk_scratch_bytes,
    );
    let mut commands = backbone.commands;
    let mut barrier_before = backbone.barrier_before;
    let mut runtime_gate = backbone.runtime_gate;
    let mut head_commands = head.commands;
    let mut head_barriers = head.barrier_before;
    let mut head_gates = head.runtime_gate;
    let ghost last = head_commands@;
    let ghost flags = head_barriers@;
    match slice_info(site.bucket_m, lm_head, &head_commands, slice) {
        Some(info) => {
            assert(head_commands@.len() == 1);
            let mut trio = slice_trio(site.params, lm_head_tape_index, &info);
            let ghost middle = trio@;
            let ghost first = commands@;
            commands.append(&mut trio);
            commands.append(&mut head_commands);
            barrier_before.push(true);
            barrier_before.push(head_barriers[0]);
            barrier_before.push(true);
            barrier_before.append(&mut head_barriers);
            runtime_gate.push(Some(RuntimeGate::OnlyIfSingleSeq));
            runtime_gate.push(Some(RuntimeGate::OnlyIfSingleSeq));
            runtime_gate.push(Some(RuntimeGate::OnlyIfSingleSeq));
            runtime_gate.push(Some(RuntimeGate::OnlyIfMultiSeq));
            assert(command_views(commands@) =~= command_views(first) + command_views(middle)
                + command_views(last));
        },
        None => {
            let ghost first = commands@;
            commands.append(&mut head_commands);
            barrier_before.append(&mut head_barriers);
            runtime_gate.append(&mut head_gates);
            assert(command_views(commands@) =~= command_views(first) + command_views(last));
        },
    }
    assert(command_views(commands@) == expected.commands);
    assert(barrier_before@ =~= expected.barrier_before);
    assert(runtime_gate@ =~= expected.runtime_gate);
    LoweredMetalTape {
        bucket_m: site.bucket_m,
        num_arena_slots,
        commands,
        barrier_before,
        runtime_gate,
        splitk_scratch_bytes,
        moe_scratch_bytes: 0,
    }
}

/// The three commands of the sliced head.
fn slice_trio(
    params: CanonicalParams,
    lm_head_tape_index: u32,
    info: &LmHeadSliceInfo,
) -> (v: Vec<LoweredCommand>)
    requires
        params.metal_dtype !is Int4,
    ensures
        forall|product: Instruction|
            info.describes(product) ==> command_views(v@) == #[trigger] slice_commands(
                params,
                lm_head_tape_index,
                product,
                info.choice,
            ),
{
    let locator = WeightLocator { bucket: lm_head_tape_index, op_idx: 0, slot: 0 };
    let gather = gather_last_token_command(params.metal_dtype, info.in_slot, info.k);
    let product = lm_head_qmv_command(
        info.choice,
        info.in_slot,
        info.out_slot,
        info.layer,
        locator,
        info.n,
        info.k,
    );
    let scatter = scatter_first_to_last_row_command(params.metal_dtype, info.out_slot, info.n);
    let ghost views = seq![gather@, product@, scatter@];
    let v = vec![gather, product, scatter];
    assert(command_views(v@) =~= views);
    v
}

/// The head's quantized product, kept for the slice.
struct LmHeadSliceInfo {
    in_slot: u32,
    out_slot: u32,
    layer: u32,
    n: u32,
    k: u32,
    choice: QmvChoice,
}

impl LmHeadSliceInfo {
    /// The fields are those of the quantized product `product`.
    spec fn describes(self, product: Instruction) -> bool {
        product matches Instruction::AffineQmm(in_slot, out_slot, layer, n, k, _, _, _)
            && self.in_slot == in_slot && self.out_slot == out_slot && self.layer == layer
            && self.n == n && self.k == k
    }
}

/// Decides whether the head is sliced, and reads off what the slice needs.
fn slice_info(
    bucket_m: u32,
    lm_head: &[Instruction],
    head: &Vec<LoweredCommand>,
    slice: Option<QmvChoice>,
) -> (r: Option<LmHeadSliceInfo>)
    ensures
        r is Some <==> slice_applies(bucket_m, lm_head@, command_views(head@), slice),
        r matches Some(info) ==> {
            &&& slice == Some(info.choice)
            &&& info.describes(lm_head@[0])
        },
{
    let choice = match slice {
        Some(c) => c,
        None => return None,
    };
    if bucket_m <= 1 || lm_head.len() != 1 || head.len() != 1 {
        return None;
    }
    assert(command_views(head@)[0] == head@[0]@);
    match lm_head[0] {
        Instruction::AffineQmm(in_slot, out_slot, layer, n, k, _, _, _) => {
            match head[0].kernel {
                KernelId::AffineQmmT | KernelId::AffineQmmTNax => Some(
                    LmHeadSliceInfo { in_slot, out_slot, layer, n, k, choice },
                ),
                _ => None,
            }
        },
        _ => None,
    }
}

/// Commands and barrier flags of a walk run parallel.
pub proof fn lemma_walk_parallel(inputs: Inputs, steps: Seq<Step>)
    ensures
        inputs.walk(steps) matches Ok(p) ==> p.commands.len() == p.barriers.len(),
    decreases steps.len(),
{
    reveal(Inputs::step_result);
    if steps.len() > 0 {
        lemma_walk_parallel(inputs, steps.drop_last());
    }
}

/// A head of one quantized product that lowered has an activation type with
/// kernels.
proof fn lemma_head_wired(head: Inputs)
    requires
        head.defined(),
        head.instructions.len() == 1,
        head.instructions[0] is AffineQmm,
    ensures
        head.site.params.metal_dtype !is Int4,
{
    let steps = schedule(head.instructions);
    reveal_with_fuel(schedule_from, 2);
    assert(steps[0] == (Step::Lower { index: 0, layer_offset: 0 }));
    assert(steps.take(0) =~= Seq::empty());
    assert(head.walk(steps.take(0)) is Ok);
    assert(head.step_defined(steps[0]));
}

} // verus!
