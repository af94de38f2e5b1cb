//! The tape that the lowering pass produces.
//!
//! A `LoweredMetalTape` belongs to one bucket and is shared by all workers. It
//! names kernels, dispatch grids, function constants and where each buffer
//! comes from; it holds no buffer itself.
use crate::arith::{ceil_div, div_ceil_u32};
use crate::ids::{BucketM, ConstSlot, LayerId};
use crate::text::{decimal, push_decimal};
use vstd::prelude::*;
use vstd::string::StringExecFns;

verus! {

/// Kernel that a command invokes.
#[derive(Clone, Copy, Debug, PartialEq, Eq, Hash, Structural)]
pub enum KernelId {
    /// Token-embedding gather: rows of the embedding table indexed by `input_ids`.
    Embed,
    /// Standalone RMSNorm.
    RmsNorm,
    /// Residual add followed by RMSNorm.
    FusedAddRmsNorm,
    /// Dense matrix product; dimensions ride in `LoweredCommand::gemm_dims`.
    Gemm,
    /// Gate and up projections with the SwiGLU product, in one dispatch.
    FusedGateUpSiluMul,
    /// Rotary embedding and KV-cache append.
    RopeAppend,
    /// QKV projection, rotary embedding and KV-cache write, dense weights.
    FusedQkvRopeCache,
    /// QKV projection, rotary embedding and KV-cache write, affine weights.
    FusedAffineQkvRopeCache,
    /// Decode attention over the paged cache.
    AttentionViaCache,
    /// Prefill attention over the paged cache.
    AttentionPrefillSdpaPaged,
    /// Elementwise product with a scalar.
    ScalarMul,
    /// Elementwise residual add.
    Add,
    /// Per-column bias broadcast.
    BiasAdd,
    /// Metadata only; never dispatched.
    Reshape,
    /// Affine matrix-vector product, quad variant.
    AffineQmvQuad,
    /// Affine matrix-vector product, fast variant.
    AffineQmvFast,
    /// Affine matrix-vector product, any shape.
    AffineQmv,
    /// Affine matrix product, one pass.
    AffineQmmT,
    /// Affine matrix product that writes split-K partials.
    AffineQmmTSplitK,
    /// Affine matrix product on the neural accelerators.
    AffineQmmTNax,
    /// `silu(gate) * up`.
    SiluMul,
    /// Sum of the split-K partials.
    SplitKReduceSum,
    /// Token-embedding gather from an affine-quantized table.
    AffineEmbed,
    /// Synthesized pre-attention kernel.
    SynthPreAttn,
    /// Synthesized pre-attention kernel, persistent envelope.
    SynthPreAttnPersistent,
    /// Synthesized kernel that ends before the down projection.
    SynthMlpPreDown,
    /// Synthesized gate/up product with SiLU.
    SynthGateUpSiluMul,
    /// Copies row `num_tokens - 1` to row 0.
    GatherLastToken,
    /// Copies row 0 to row `num_tokens - 1`.
    ScatterFirstToLastRow,
    /// Row softmax of the router logits.
    Softmax,
    /// Row argsort of the router scores.
    ArgPartitionTopK,
    /// Gather of the chosen scores.
    TakeAlongAxis,
    /// Keeps the trailing `top_k` columns of a row.
    SliceTrailingColsU32,
    /// Per-expert affine matrix-vector product, fast variant.
    AffineGatherQmvFast,
    /// Per-expert affine matrix-vector product, any shape.
    AffineGatherQmv,
    /// Weighted sum of the expert outputs.
    MoeWeightedSum,
}

/// Element type of the activations, which picks the symbol of a kernel.
#[derive(Clone, Copy, Debug, PartialEq, Eq, Hash, Structural)]
pub enum MetalDtype {
    /// IEEE half precision.
    F16,
    /// bfloat16.
    Bf16,
    /// Reserved for packed four-bit weights; no kernel symbol exists for it.
    Int4,
}

impl MetalDtype {
    /// The infix of a symbol name.
    pub open spec fn infix(self) -> &'static str {
        match self {
            MetalDtype::F16 => "f16",
            MetalDtype::Bf16 => "bf16",
            MetalDtype::Int4 => "int4",
        }
    }

    /// The infix that a kernel symbol carries for this element type.
    pub fn symbol_infix(self) -> (s: &'static str)
        ensures
            s == self.infix(),
            s@ == self.infix()@,
    {
        match self {
            MetalDtype::F16 => "f16",
            MetalDtype::Bf16 => "bf16",
            MetalDtype::Int4 => "int4",
        }
    }
}

/// Axis of a threadgroup grid.
#[derive(Clone, Copy, Debug, PartialEq, Eq, Hash, Structural)]
pub enum MScaleAxis {
    X,
    Y,
    Z,
}

/// How to shrink a grid to the actual number of tokens: the count on `axis`,
/// which was computed for `bucket_m` tokens, is scaled proportionally and
/// rounded up.
#[derive(Clone, Copy, Debug, PartialEq, Eq, Structural)]
pub struct MScaling {
    pub axis: MScaleAxis,
    pub bucket_m: BucketM,
}

impl MScaling {
    /// The count that a baseline of `baseline` groups shrinks to for
    /// `num_tokens` tokens.
    pub open spec fn scaled_count(self, baseline: int, num_tokens: int) -> int {
        ceil_div(baseline * num_tokens, self.bucket_m.0 as int)
    }
}

/// Condition on the sequences of a forward under which a command runs. A
/// forward that verifies speculative tokens needs the logits of every row, and
/// counts as one of several sequences.
#[derive(Clone, Copy, Debug, PartialEq, Eq, Hash, Structural)]
pub enum RuntimeGate {
    /// Runs only when the forward holds exactly one sequence and verifies no
    /// speculative tokens.
    OnlyIfSingleSeq,
    /// Runs only when the forward holds more than one sequence or verifies
    /// speculative tokens.
    OnlyIfMultiSeq,
}

/// A command with this gate runs in a forward of `num_seqs` sequences that
/// verifies no speculative tokens.
pub open spec fn gate_open(gate: Option<RuntimeGate>, num_seqs: int) -> bool {
    match gate {
        None => true,
        Some(RuntimeGate::OnlyIfSingleSeq) => num_seqs == 1,
        Some(RuntimeGate::OnlyIfMultiSeq) => num_seqs > 1,
    }
}

/// A command with this gate runs in a forward of `num_seqs` sequences. With
/// speculative tokens the commands of a single sequence are skipped and those
/// of several sequences run, however many there are.
pub open spec fn gate_open_in_step(
    gate: Option<RuntimeGate>,
    num_seqs: int,
    has_spec_tokens: bool,
) -> bool {
    if has_spec_tokens {
        gate != Some(RuntimeGate::OnlyIfSingleSeq)
    } else {
        gate_open(gate, num_seqs)
    }
}

/// Says whether a command with this gate runs.
pub fn gate_matches(gate: Option<RuntimeGate>, num_seqs: u32, has_spec_tokens: bool) -> (r: bool)
    ensures
        r == gate_open_in_step(gate, num_seqs as int, has_spec_tokens),
{
    match gate {
        None => true,
        Some(RuntimeGate::OnlyIfSingleSeq) => num_seqs == 1 && !has_spec_tokens,
        Some(RuntimeGate::OnlyIfMultiSeq) => num_seqs > 1 || has_spec_tokens,
    }
}

/// Threadgroup grid of a command.
#[derive(Clone, Copy, Debug, PartialEq, Eq)]
pub struct DispatchShape {
    /// Threadgroups per axis, computed for the full bucket.
    pub threadgroups: (u32, u32, u32),
    /// Threads per threadgroup and axis.
    pub threads_per_threadgroup: (u32, u32, u32),
    /// How the grid follows the actual number of tokens, if it does.
    pub m_scaling: Option<MScaling>,
}

impl DispatchShape {
    /// A one-dimensional grid of groups of `threads_per_group` threads that
    /// covers `total_threads`.
    pub open spec fn grid_1d(total_threads: int, threads_per_group: u32) -> DispatchShape {
        DispatchShape {
            threadgroups: (ceil_div(total_threads, threads_per_group as int) as u32, 1, 1),
            threads_per_threadgroup: (threads_per_group, 1, 1),
            m_scaling: None,
        }
    }

    /// Builds a one-dimensional grid: `total_threads` rounded up to whole
    /// groups.
    pub fn dispatch_1d(total_threads: u32, threads_per_group: u32) -> (d: Self)
        requires
            threads_per_group > 0,
        ensures
            d == Self::grid_1d(total_threads as int, threads_per_group),
            d.threadgroups.0 == ceil_div(total_threads as int, threads_per_group as int),
    {
        let groups: u32 = div_ceil_u32(total_threads, threads_per_group);
        DispatchShape {
            threadgroups: (groups, 1, 1),
            threads_per_threadgroup: (threads_per_group, 1, 1),
            m_scaling: None,
        }
    }
}

/// Value of one function constant.
#[derive(Clone, Copy, Debug, PartialEq, Eq, Structural)]
pub enum ConstantValue {
    /// A `uint` constant.
    Uint { slot: ConstSlot, value: u32 },
    /// An `int` constant.
    Int { slot: ConstSlot, value: i32 },
    /// A `float` constant, as the bits of an `f32`.
    Float { slot: ConstSlot, bits: u32 },
}

impl ConstantValue {
    /// A `uint` constant in slot `slot`.
    pub fn uint(slot: u32, value: u32) -> (c: Self)
        ensures
            c == (ConstantValue::Uint { slot: ConstSlot(slot), value }),
    {
        ConstantValue::Uint { slot: ConstSlot(slot), value }
    }

    /// An `int` constant in slot `slot`.
    pub fn sint(slot: u32, value: i32) -> (c: Self)
        ensures
            c == (ConstantValue::Int { slot: ConstSlot(slot), value }),
    {
        ConstantValue::Int { slot: ConstSlot(slot), value }
    }

    /// A `float` constant in slot `slot`, given by its bits.
    pub fn float(slot: u32, bits: u32) -> (c: Self)
        ensures
            c == (ConstantValue::Float { slot: ConstSlot(slot), bits }),
    {
        ConstantValue::Float { slot: ConstSlot(slot), bits }
    }

    /// The slot that the constant fills.
    pub open spec fn const_slot(self) -> u32 {
        match self {
            ConstantValue::Uint { slot, .. } => slot.0,
            ConstantValue::Int { slot, .. } => slot.0,
            ConstantValue::Float { slot, .. } => slot.0,
        }
    }
}

/// Where a weight accessor finds a layer: the tape, the position of the source
/// instruction in it, and the position among accessors of the same kind at
/// that instruction.
#[derive(Clone, Copy, Debug, PartialEq, Eq, Structural)]
pub struct WeightLocator {
    pub bucket: u32,
    pub op_idx: u32,
    pub slot: u32,
}

/// Weight accessor that resolves a binding.
#[derive(Clone, Copy, Debug, PartialEq, Eq, Structural)]
pub enum WeightBundleKind {
    Embedding,
    RmsNorm,
    LinearLayer,
    CosSin,
    AffineQuantEmbedding,
    FusedMoe,
    SharedFusedMoe,
}

/// Tensor of a weight bundle.
#[derive(Clone, Copy, Debug, PartialEq, Eq, Structural)]
pub enum WeightTensor {
    Weight,
    Bias,
    AffineScales,
    AffineBiases,
    AffineLinearBias,
    MoeRouterGate,
    MoeExpertGateW,
    MoeExpertGateS,
    MoeExpertGateB,
    MoeExpertUpW,
    MoeExpertUpS,
    MoeExpertUpB,
    MoeExpertDownW,
    MoeExpertDownS,
    MoeExpertDownB,
    MoeSharedGateUpW,
    MoeSharedGateUpS,
    MoeSharedGateUpB,
    MoeSharedDownW,
    MoeSharedDownS,
    MoeSharedDownB,
    MoeSharedExpertGate,
}

/// Buffer of the forward call that a binding names.
#[derive(Clone, Copy, Debug, PartialEq, Eq, Hash, Structural)]
pub enum RuntimeBindingKind {
    InputIds,
    Positions,
    SlotMapping,
    CuSeqlensQ,
    SeqUsedK,
    BlockTable,
    /// The key cache of one layer.
    KvCacheK { layer: LayerId },
    /// The value cache of one layer.
    KvCacheV { layer: LayerId },
    NumTokensU32,
}

/// Where the buffer of one kernel argument comes from.
#[derive(Clone, Copy, Debug, PartialEq, Eq, Structural)]
pub enum Binding {
    /// A slot of the worker's tile arena.
    ArenaSlot { slot: u32, binding_index: u8 },
    /// A tensor of a weight bundle.
    Weight {
        kind: WeightBundleKind,
        which: WeightTensor,
        layer: LayerId,
        locator: WeightLocator,
        binding_index: u8,
    },
    /// A buffer of the forward call.
    Runtime { kind: RuntimeBindingKind, binding_index: u8 },
    /// The shared split-K scratch buffer.
    Scratch { binding_index: u8 },
    /// An immediate.
    Inline { binding_index: u8, value: u32 },
    /// A region of the shared mixture-of-experts scratch buffer.
    MoeScratch { binding_index: u8, byte_offset: u32 },
    /// The zeroed counter of the cross-threadgroup barrier.
    PersistentBarrierCounter { binding_index: u8 },
}

impl Binding {
    pub open spec fn spec_arena(slot: u32, binding_index: u8) -> Binding {
        Binding::ArenaSlot { slot, binding_index }
    }

    /// Arena slot `slot` at argument `binding_index`.
    #[verifier::when_used_as_spec(spec_arena)]
    pub fn arena(slot: u32, binding_index: u8) -> (b: Binding)
        ensures
            b == Self::spec_arena(slot, binding_index),
    {
        Binding::ArenaSlot { slot, binding_index }
    }

    pub open spec fn spec_runtime(kind: RuntimeBindingKind, binding_index: u8) -> Binding {
        Binding::Runtime { kind, binding_index }
    }

    /// Runtime buffer `kind` at argument `binding_index`.
    #[verifier::when_used_as_spec(spec_runtime)]
    pub fn runtime(kind: RuntimeBindingKind, binding_index: u8) -> (b: Binding)
        ensures
            b == Self::spec_runtime(kind, binding_index),
    {
        Binding::Runtime { kind, binding_index }
    }

    pub open spec fn spec_weight(
        kind: WeightBundleKind,
        which: WeightTensor,
        layer: LayerId,
        locator: WeightLocator,
        binding_index: u8,
    ) -> Binding {
        Binding::Weight { kind, which, layer, locator, binding_index }
    }

    /// Tensor `which` of a weight bundle at argument `binding_index`.
    #[verifier::when_used_as_spec(spec_weight)]
    pub fn weight(
        kind: WeightBundleKind,
        which: WeightTensor,
        layer: LayerId,
        locator: WeightLocator,
        binding_index: u8,
    ) -> (b: Binding)
        ensures
            b == Self::spec_weight(kind, which, layer, locator, binding_index),
    {
        Binding::Weight { kind, which, layer, locator, binding_index }
    }

    /// The argument index that the binding fills.
    pub open spec fn index(self) -> u8 {
        match self {
            Binding::ArenaSlot { binding_index, .. } => binding_index,
            Binding::Weight { binding_index, .. } => binding_index,
            Binding::Runtime { binding_index, .. } => binding_index,
            Binding::Scratch { binding_index } => binding_index,
            Binding::Inline { binding_index, .. } => binding_index,
            Binding::MoeScratch { binding_index, .. } => binding_index,
            Binding::PersistentBarrierCounter { binding_index } => binding_index,
        }
    }

    /// The layer that the binding names, if it names one.
    pub open spec fn layer(self) -> Option<LayerId> {
        match self {
            Binding::Weight { layer, .. } => Some(layer),
            Binding::Runtime { kind: RuntimeBindingKind::KvCacheK { layer }, .. } => Some(layer),
            Binding::Runtime { kind: RuntimeBindingKind::KvCacheV { layer }, .. } => Some(layer),
            _ => None,
        }
    }
}

/// Dimensions of a dense matrix product: `[m, k]` times the transpose of
/// `[n, k]`.
#[derive(Clone, Copy, Debug, PartialEq, Eq, Structural)]
pub struct GemmDims {
    pub m: u32,
    pub n: u32,
    pub k: u32,
}

/// One kernel invocation.
#[derive(Debug, PartialEq, Eq)]
pub struct LoweredCommand {
    pub kernel: KernelId,
    /// Shader library that holds `function`; empty for dense products.
    pub library: &'static str,
    /// Kernel symbol; empty for dense products.
    pub function: &'static str,
    pub constants: Vec<ConstantValue>,
    pub dispatch: DispatchShape,
    pub bindings: Vec<Binding>,
    pub gemm_dims: Option<GemmDims>,
}

/// What a `LoweredCommand` says.
pub struct CommandView {
    pub kernel: KernelId,
    pub library: &'static str,
    pub function: &'static str,
    pub constants: Seq<ConstantValue>,
    pub dispatch: DispatchShape,
    pub bindings: Seq<Binding>,
    pub gemm_dims: Option<GemmDims>,
}

impl View for LoweredCommand {
    type V = CommandView;

    open spec fn view(&self) -> CommandView {
        CommandView {
            kernel: self.kernel,
            library: self.library,
            function: self.function,
            constants: self.constants@,
            dispatch: self.dispatch,
            bindings: self.bindings@,
            gemm_dims: self.gemm_dims,
        }
    }
}

/// The commands of a sequence, each by its view.
pub open spec fn command_views(commands: Seq<LoweredCommand>) -> Seq<CommandView> {
    commands.map_values(|c: LoweredCommand| c@)
}

/// The lowered tape of one bucket.
#[derive(Debug, PartialEq, Eq)]
pub struct LoweredMetalTape {
    /// Number of tokens that the tape is specialized for.
    pub bucket_m: u32,
    /// Number of arena slots that the tape references.
    pub num_arena_slots: u32,
    pub commands: Vec<LoweredCommand>,
    /// Per command, whether a barrier stands before it.
    pub barrier_before: Vec<bool>,
    /// Per command, the condition under which it runs; `None` is always.
    pub runtime_gate: Vec<Option<RuntimeGate>>,
    /// Bytes of the shared split-K scratch buffer.
    pub splitk_scratch_bytes: u32,
    /// Bytes of the shared mixture-of-experts scratch buffer.
    pub moe_scratch_bytes: u32,
}

/// What a `LoweredMetalTape` says.
pub struct TapeView {
    pub bucket_m: u32,
    pub num_arena_slots: u32,
    pub commands: Seq<CommandView>,
    pub barrier_before: Seq<bool>,
    pub runtime_gate: Seq<Option<RuntimeGate>>,
    pub splitk_scratch_bytes: u32,
    pub moe_scratch_bytes: u32,
}

impl View for LoweredMetalTape {
    type V = TapeView;

    open spec fn view(&self) -> TapeView {
        TapeView {
            bucket_m: self.bucket_m,
            num_arena_slots: self.num_arena_slots,
            commands: command_views(self.commands@),
            barrier_before: self.barrier_before@,
            runtime_gate: self.runtime_gate@,
            splitk_scratch_bytes: self.splitk_scratch_bytes,
            moe_scratch_bytes: self.moe_scratch_bytes,
        }
    }
}

impl TapeView {
    /// The per-command sequences run parallel.
    pub open spec fn wf(self) -> bool {
        &&& self.barrier_before.len() == self.commands.len()
        &&& self.runtime_gate.len() == self.commands.len()
    }
}

/// Errors of the lowering pass.
#[derive(Clone, Copy, Debug, PartialEq, Eq)]
pub enum LoweringError {
    /// The instruction at `index` has no lowering.
    UnsupportedVariant { index: usize, variant_type: &'static str },
    /// The loop at `index` names a body of `body_len` instructions, but only
    /// `remaining` follow it.
    MalformedLoop { index: usize, count: u32, body_len: u32, remaining: usize },
}

impl LoweringError {
    /// The text of the error.
    pub open spec fn text(&self) -> Seq<char> {
        match self {
            LoweringError::UnsupportedVariant { index, variant_type } => {
                "lowering: unsupported instruction variant `"@ + variant_type@
                    + "` at tape index "@ + decimal(*index as nat)
                    + " (TinyLlama-1.1B critical path is the only set covered in Phase 5.A; add a match arm in `interpreter::metal::lowering::lower_one`)"@
            },
            LoweringError::MalformedLoop { index, count, body_len, remaining } => {
                "lowering: malformed Loop("@ + decimal(*count as nat) + ", "@ + decimal(
                    *body_len as nat,
                ) + ") at tape index "@ + decimal(*index as nat)
                    + " — body extends past tape end (only "@ + decimal(*remaining as nat)
                    + " instructions remain)"@
            },
        }
    }

    /// Returns the text of the error.
    pub fn message(&self) -> (s: String)
        ensures
            s@ == self.text(),
    {
        match self {
            LoweringError::UnsupportedVariant { index, variant_type } => {
                let mut s = String::from_str("lowering: unsupported instruction variant `");
                s.append(variant_type);
                s.append("` at tape index ");
                push_decimal(&mut s, *index as u64);
                s.append(
                    " (TinyLlama-1.1B critical path is the only set covered in Phase 5.A; add a match arm in `interpreter::metal::lowering::lower_one`)",
                );
                s
            },
            LoweringError::MalformedLoop { index, count, body_len, remaining } => {
                let mut s = String::from_str("lowering: malformed Loop(");
                push_decimal(&mut s, *count as u64);
                s.append(", ");
                push_decimal(&mut s, *body_len as u64);
                s.append(") at tape index ");
                push_decimal(&mut s, *index as u64);
                s.append(" — body extends past tape end (only ");
                push_decimal(&mut s, *remaining as u64);
                s.append(" instructions remain)");
                s
            },
        }
    }
}

/// A one-dimensional grid has just enough groups for its threads, and no extent
/// on the other axes.
pub proof fn law_one_dimensional_grids_cover(total_threads: u32, threads_per_group: u32)
    requires
        threads_per_group > 0,
    ensures
        ({
            let d = DispatchShape::grid_1d(total_threads as int, threads_per_group);
            let n = d.threadgroups.0 as int;
            &&& n * threads_per_group >= total_threads
            &&& n > 0 ==> (n - 1) * threads_per_group < total_threads
            &&& d.threadgroups.1 == 1 && d.threadgroups.2 == 1
            &&& d.threads_per_threadgroup == (threads_per_group, 1u32, 1u32)
            &&& d.m_scaling is None
        }),
{
    let a = total_threads as int;
    let b = threads_per_group as int;
    let c = ceil_div(a, b);
    crate::arith::lemma_ceil_div_covers(a, b);
    assert(a * b >= a) by (nonlinear_arith)
        requires
            a >= 0,
            b > 0,
    ;
    assert(0 <= c) by (nonlinear_arith)
        requires
            c * b >= a,
            a >= 0,
            b > 0,
    ;
    assert((c - 1) * b == c * b - b) by (nonlinear_arith);
}

/// Without speculative tokens a gate goes by the number of sequences; with them
/// every row of logits is needed, and the commands of a single sequence are
/// skipped.
pub proof fn law_gates(num_seqs: int, has_spec_tokens: bool)
    requires
        num_seqs >= 1,
    ensures
        gate_open_in_step(None, num_seqs, has_spec_tokens),
        gate_open_in_step(Some(RuntimeGate::OnlyIfSingleSeq), num_seqs, has_spec_tokens)
            <==> num_seqs == 1 && !has_spec_tokens,
        gate_open_in_step(Some(RuntimeGate::OnlyIfMultiSeq), num_seqs, has_spec_tokens)
            <==> num_seqs > 1 || has_spec_tokens,
        gate_open(Some(RuntimeGate::OnlyIfSingleSeq), num_seqs) <==> num_seqs == 1,
        gate_open(Some(RuntimeGate::OnlyIfMultiSeq), num_seqs) <==> num_seqs > 1,
{
}

/// Every element type has its own infix.
pub proof fn law_infixes()
    ensures
        MetalDtype::F16.infix() == "f16",
        MetalDtype::Bf16.infix() == "bf16",
        MetalDtype::Int4.infix() == "int4",
{
}

} // verus!
