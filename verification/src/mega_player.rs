//! Runtime half of the megakernel player: from a serialized program and live
//! buffers to the operand table and the launch grid.
//!
//! The program fixes every operand and offset. What is left is to find the
//! device address behind each of its buffers and to add the offsets.
use crate::bytes::{le_longs, le_value, lemma_longs_read_back, u64_le_bytes};
use crate::ids::LayerId;
use crate::instruction::{DequantDtype, ScaleDtype};
use crate::lowered::{
    MetalDtype, RuntimeBindingKind, WeightBundleKind, WeightLocator, WeightTensor,
};
use crate::symbols::{dequant_dtype, dequant_dtype_for, scale_dtype_for};
use crate::text::{decimal, push_decimal};
use vstd::prelude::*;
use vstd::string::StringExecFns;

verus! {

// ---- Program ----

/// Weight accessor that a program names.
#[derive(Clone, Copy, Debug, PartialEq, Eq, Structural)]
pub enum WeightBundle {
    RmsNorm,
    Embedding,
    LinearLayer,
    CosSin,
    AffineQuantEmbedding,
}

/// Tensor of a weight that a program names.
#[derive(Clone, Copy, Debug, PartialEq, Eq, Structural)]
pub enum WeightRole {
    Weight,
    Bias,
    AffineScales,
    AffineBiases,
    AffineLinearBias,
}

/// Runtime buffer that a program names.
#[derive(Clone, Copy, Debug, PartialEq, Eq, Structural)]
pub enum InputKind {
    InputIds,
    Positions,
    SlotMapping,
    CuSeqlensQ,
    SeqUsedK,
    BlockTable,
    KvCacheK { layer: u32 },
    KvCacheV { layer: u32 },
    NumTokens,
}

/// Place of a weight.
#[derive(Clone, Copy, Debug, PartialEq, Eq, Structural)]
pub struct WeightLoc {
    pub layer: u32,
    pub bucket: u32,
    pub op_idx: u32,
    pub slot: u32,
}

/// A buffer that a program reads or writes.
#[derive(Clone, Copy, Debug, PartialEq, Eq, Structural)]
pub enum BufferRef {
    /// A slot of the megakernel's own arena.
    ArenaSlot(u32),
    /// A scratch region; no program of one chunk has one.
    Scratch(u32),
    /// A runtime buffer.
    Input(InputKind),
    /// The embedding output of the preceding step.
    EmbeddedHidden,
    /// A weight.
    Weight { bundle: WeightBundle, role: WeightRole, loc: WeightLoc },
}

/// One operand: a buffer, by its number, and an offset into it.
#[derive(Clone, Copy, Debug, PartialEq, Eq, Structural)]
pub struct OperandSlot {
    pub buffer: u32,
    pub byte_offset: u64,
}

/// Operation of a shape class.
#[derive(Clone, Copy, Debug, PartialEq, Eq, Structural)]
pub enum OpKind {
    Qmv,
    QmvQuad,
    QmvCoh,
    Attn,
    RmsNorm,
    SiluMul,
    Add,
    Rope,
    RopeAppend,
    SumReduce,
    /// An operation that profiles leave out.
    Unprofiled,
    /// An operation with a number past the table, counted as other.
    OutOfTable,
}

/// A shape class: its operation and the two dimensions behind it.
#[derive(Clone, Copy, Debug, PartialEq, Eq, Structural)]
pub struct ShapeClass {
    pub op: OpKind,
    pub dim1: u32,
    pub dim2: u32,
}

/// A tape instruction: its opcode, 0 for a computation, and its shape class.
#[derive(Clone, Copy, Debug, PartialEq, Eq, Structural)]
pub struct TapeOp {
    pub opcode: u32,
    pub shape: u32,
}

/// A serialized program.
#[derive(Debug)]
pub struct MegaProgram {
    pub tape: Vec<TapeOp>,
    pub shapes: Vec<ShapeClass>,
    pub tape_offsets: Vec<u32>,
    pub operands: Vec<OperandSlot>,
    pub buffers: Vec<BufferRef>,
    /// Bytes per arena slot.
    pub arena_bytes: Vec<u64>,
    pub num_flags: u32,
}

// ---- Pipeline ----

/// The infix of an activation type.
pub open spec fn act_infix(d: DequantDtype) -> &'static str {
    match d {
        DequantDtype::F16 => "f16",
        DequantDtype::Bf16 => "bf16",
    }
}

/// The infix of a scale type.
pub open spec fn scale_infix(d: ScaleDtype) -> &'static str {
    match d {
        ScaleDtype::F16 => "f16",
        ScaleDtype::Bf16 => "bf16",
    }
}

/// The player's symbol for a model's types.
pub open spec fn player_symbol_text(
    act: DequantDtype,
    scale: ScaleDtype,
    group_size: u32,
    bits: u32,
) -> Seq<char> {
    "wavefront_player_"@ + act_infix(act)@ + "_s_"@ + scale_infix(scale)@ + "_gs_"@ + decimal(
        group_size as nat,
    ) + "_b_"@ + decimal(bits as nat)
}

/// Returns the player's symbol for a model's types.
pub fn player_symbol(act: DequantDtype, scale: ScaleDtype, group_size: u32, bits: u32) -> (s:
    String)
    ensures
        s@ == player_symbol_text(act, scale, group_size, bits),
{
    let mut s = String::from_str("wavefront_player_");
    match act {
        DequantDtype::F16 => s.append("f16"),
        DequantDtype::Bf16 => s.append("bf16"),
    }
    s.append("_s_");
    match scale {
        ScaleDtype::F16 => s.append("f16"),
        ScaleDtype::Bf16 => s.append("bf16"),
    }
    s.append("_gs_");
    push_decimal(&mut s, group_size as u64);
    s.append("_b_");
    push_decimal(&mut s, bits as u64);
    s
}

/// The player's pipeline. It takes no function constants: every shape is in
/// the tape.
#[derive(Debug)]
pub struct PlayerPipelineKey {
    pub library: &'static str,
    pub function: String,
}

/// Returns the player's pipeline for a model.
pub fn player_pipeline_key(dtype: MetalDtype, group_size: u32, bits: u32) -> (k: PlayerPipelineKey)
    requires
        dtype !is Int4,
    ensures
        k.library == "wavefront_layer",
        k.function@ == player_symbol_text(
            dequant_dtype(dtype),
            ScaleDtype::F16,
            group_size,
            bits,
        ),
{
    PlayerPipelineKey {
        library: "wavefront_layer",
        function: player_symbol(dequant_dtype_for(dtype), scale_dtype_for(), group_size, bits),
    }
}

// ---- Buffers ----

/// A resolved buffer: its device address and where the tensor starts in it.
#[derive(Clone, Copy, Debug, PartialEq, Eq, Structural)]
pub struct ResolvedBuffer {
    pub address: u64,
    pub base: u64,
}

/// Why a program's buffers could not be resolved.
#[derive(Clone, Copy, Debug, PartialEq, Eq)]
pub enum ResolveError {
    /// The program names something that no buffer stands for.
    LookupFailed { reason: &'static str },
    /// The weight behind the buffer of this number was not found.
    WeightMissing { buffer: usize },
}

/// The weight bundle behind a program's.
pub open spec fn metal_bundle(b: WeightBundle) -> WeightBundleKind {
    match b {
        WeightBundle::RmsNorm => WeightBundleKind::RmsNorm,
        WeightBundle::Embedding => WeightBundleKind::Embedding,
        WeightBundle::LinearLayer => WeightBundleKind::LinearLayer,
        WeightBundle::CosSin => WeightBundleKind::CosSin,
        WeightBundle::AffineQuantEmbedding => WeightBundleKind::AffineQuantEmbedding,
    }
}

/// Returns the weight bundle behind a program's.
pub fn bundle_to_metal(b: WeightBundle) -> (k: WeightBundleKind)
    ensures
        k == metal_bundle(b),
{
    match b {
        WeightBundle::RmsNorm => WeightBundleKind::RmsNorm,
        WeightBundle::Embedding => WeightBundleKind::Embedding,
        WeightBundle::LinearLayer => WeightBundleKind::LinearLayer,
        WeightBundle::CosSin => WeightBundleKind::CosSin,
        WeightBundle::AffineQuantEmbedding => WeightBundleKind::AffineQuantEmbedding,
    }
}

/// The tensor behind a program's role.
pub open spec fn metal_role(r: WeightRole) -> WeightTensor {
    match r {
        WeightRole::Weight => WeightTensor::Weight,
        WeightRole::Bias => WeightTensor::Bias,
        WeightRole::AffineScales => WeightTensor::AffineScales,
        WeightRole::AffineBiases => WeightTensor::AffineBiases,
        WeightRole::AffineLinearBias => WeightTensor::AffineLinearBias,
    }
}

/// Returns the tensor behind a program's role.
pub fn role_to_metal(r: WeightRole) -> (t: WeightTensor)
    ensures
        t == metal_role(r),
{
    match r {
        WeightRole::Weight => WeightTensor::Weight,
        WeightRole::Bias => WeightTensor::Bias,
        WeightRole::AffineScales => WeightTensor::AffineScales,
        WeightRole::AffineBiases => WeightTensor::AffineBiases,
        WeightRole::AffineLinearBias => WeightTensor::AffineLinearBias,
    }
}

/// The runtime buffer behind a program's input.
pub open spec fn metal_input(k: InputKind) -> RuntimeBindingKind {
    match k {
        InputKind::InputIds => RuntimeBindingKind::InputIds,
        InputKind::Positions => RuntimeBindingKind::Positions,
        InputKind::SlotMapping => RuntimeBindingKind::SlotMapping,
        InputKind::CuSeqlensQ => RuntimeBindingKind::CuSeqlensQ,
        InputKind::SeqUsedK => RuntimeBindingKind::SeqUsedK,
        InputKind::BlockTable => RuntimeBindingKind::BlockTable,
        InputKind::KvCacheK { layer } => RuntimeBindingKind::KvCacheK { layer: LayerId(layer) },
        InputKind::KvCacheV { layer } => RuntimeBindingKind::KvCacheV { layer: LayerId(layer) },
        InputKind::NumTokens => RuntimeBindingKind::NumTokensU32,
    }
}

/// Returns the runtime buffer behind a program's input.
pub fn input_to_metal(k: InputKind) -> (b: RuntimeBindingKind)
    ensures
        b == metal_input(k),
{
    match k {
        InputKind::InputIds => RuntimeBindingKind::InputIds,
        InputKind::Positions => RuntimeBindingKind::Positions,
        InputKind::SlotMapping => RuntimeBindingKind::SlotMapping,
        InputKind::CuSeqlensQ => RuntimeBindingKind::CuSeqlensQ,
        InputKind::SeqUsedK => RuntimeBindingKind::SeqUsedK,
        InputKind::BlockTable => RuntimeBindingKind::BlockTable,
        InputKind::KvCacheK { layer } => RuntimeBindingKind::KvCacheK { layer: LayerId(layer) },
        InputKind::KvCacheV { layer } => RuntimeBindingKind::KvCacheV { layer: LayerId(layer) },
        InputKind::NumTokens => RuntimeBindingKind::NumTokensU32,
    }
}

/// What has to be looked up outside the program for one of its buffers.
#[derive(Clone, Copy, Debug, PartialEq, Eq, Structural)]
pub enum LookupRequest {
    /// Nothing.
    Nothing,
    /// A runtime buffer.
    Runtime(RuntimeBindingKind),
    /// A tensor of a weight.
    Weight {
        kind: WeightBundleKind,
        which: WeightTensor,
        layer: LayerId,
        locator: WeightLocator,
    },
}

/// The lookup that a buffer asks for.
pub open spec fn request_of(b: BufferRef) -> LookupRequest {
    match b {
        BufferRef::Input(kind) => LookupRequest::Runtime(metal_input(kind)),
        BufferRef::Weight { bundle, role, loc } => LookupRequest::Weight {
            kind: metal_bundle(bundle),
            which: metal_role(role),
            layer: LayerId(loc.layer),
            locator: WeightLocator { bucket: loc.bucket, op_idx: loc.op_idx, slot: loc.slot },
        },
        _ => LookupRequest::Nothing,
    }
}

/// Returns the lookup that a buffer asks for.
pub fn lookup_request(b: BufferRef) -> (r: LookupRequest)
    ensures
        r == request_of(b),
{
    match b {
        BufferRef::Input(kind) => LookupRequest::Runtime(input_to_metal(kind)),
        BufferRef::Weight { bundle, role, loc } => LookupRequest::Weight {
            kind: bundle_to_metal(bundle),
            which: role_to_metal(role),
            layer: LayerId(loc.layer),
            locator: WeightLocator { bucket: loc.bucket, op_idx: loc.op_idx, slot: loc.slot },
        },
        _ => LookupRequest::Nothing,
    }
}

/// Where buffer `i` of a program is, given the addresses of the arena slots,
/// what the lookups found, and the embedding output.
pub open spec fn resolution(
    buffers: Seq<BufferRef>,
    arena: Seq<u64>,
    found: Seq<Option<ResolvedBuffer>>,
    embedded: Option<u64>,
    i: int,
) -> Result<ResolvedBuffer, ResolveError> {
    match buffers[i] {
        BufferRef::ArenaSlot(slot) => if slot < arena.len() {
            Ok(ResolvedBuffer { address: arena[slot as int], base: 0 })
        } else {
            Err(
                ResolveError::LookupFailed {
                    reason: "wavefront-mega: arena slot out of range",
                },
            )
        },
        BufferRef::Scratch(_) => Err(
            ResolveError::LookupFailed {
                reason: "wavefront-mega: serializer emits no Scratch (k_chunks=1 only)",
            },
        ),
        BufferRef::EmbeddedHidden => match embedded {
            Some(address) => Ok(ResolvedBuffer { address, base: 0 }),
            None => Err(
                ResolveError::LookupFailed {
                    reason: "wavefront-mega: EmbeddedHidden source but no embed-output buffer supplied",
                },
            ),
        },
        BufferRef::Input(_) => Ok(ResolvedBuffer { address: found[i]->0.address, base: 0 }),
        BufferRef::Weight { .. } => match found[i] {
            Some(b) => Ok(b),
            None => Err(ResolveError::WeightMissing { buffer: i as usize }),
        },
    }
}

/// Every buffer of a program can be found.
pub open spec fn all_resolve(
    buffers: Seq<BufferRef>,
    arena: Seq<u64>,
    found: Seq<Option<ResolvedBuffer>>,
    embedded: Option<u64>,
) -> bool {
    forall|i: int|
        0 <= i < buffers.len() ==> (#[trigger] resolution(
            buffers,
            arena,
            found,
            embedded,
            i,
        )) is Ok
}

/// Where the buffers of a program are, if all can be found.
pub open spec fn resolved_buffers(
    buffers: Seq<BufferRef>,
    arena: Seq<u64>,
    found: Seq<Option<ResolvedBuffer>>,
    embedded: Option<u64>,
) -> Seq<ResolvedBuffer> {
    Seq::new(buffers.len(), |i: int| resolution(buffers, arena, found, embedded, i)->Ok_0)
}

/// The lookups were made: there is an answer per buffer, and runtime buffers
/// were found.
pub open spec fn lookups_made(
    buffers: Seq<BufferRef>,
    found: Seq<Option<ResolvedBuffer>>,
) -> bool {
    &&& found.len() == buffers.len()
    &&& forall|i: int|
        0 <= i < buffers.len() && (#[trigger] buffers[i]) is Input ==> found[i] is Some
}

/// Finds every buffer of a program. The first that cannot be found is
/// reported.
pub fn resolve_mega_buffers(
    prog: &MegaProgram,
    arena: &[u64],
    found: &[Option<ResolvedBuffer>],
    embedded: Option<u64>,
) -> (r: Result<Vec<ResolvedBuffer>, ResolveError>)
    requires
        lookups_made(prog.buffers@, found@),
    ensures
        match r {
            Ok(resolved) => resolved@.len() == prog.buffers@.len() && forall|i: int|
                0 <= i < prog.buffers@.len() ==> (#[trigger] resolution(
                    prog.buffers@,
                    arena@,
                    found@,
                    embedded,
                    i,
                )) == Ok::<ResolvedBuffer, ResolveError>(resolved@[i]),
            Err(e) => exists|i: int|
                0 <= i < prog.buffers@.len() && (#[trigger] resolution(
                    prog.buffers@,
                    arena@,
                    found@,
                    embedded,
                    i,
                )) == Err::<ResolvedBuffer, ResolveError>(e) && forall|j: int|
                    0 <= j < i ==> (#[trigger] resolution(
                        prog.buffers@,
                        arena@,
                        found@,
                        embedded,
                        j,
                    )) is Ok,
        },
{
    let mut resolved: Vec<ResolvedBuffer> = Vec::new();
    let mut i: usize = 0;
    while i < prog.buffers.len()
        invariant
            i <= prog.buffers@.len(),
            lookups_made(prog.buffers@, found@),
            resolved@.len() == i,
            forall|j: int|
                0 <= j < i ==> (#[trigger] resolution(
                    prog.buffers@,
                    arena@,
                    found@,
                    embedded,
                    j,
                )) == Ok::<ResolvedBuffer, ResolveError>(resolved@[j]),
        decreases prog.buffers@.len() - i,
    {
        let ghost expected = resolution(prog.buffers@, arena@, found@, embedded, i as int);
        let one: Result<ResolvedBuffer, ResolveError> = match prog.buffers[i] {
            BufferRef::ArenaSlot(slot) => {
                let at: usize = slot as usize;
                if at < arena.len() {
                    Ok(ResolvedBuffer { address: arena[at], base: 0 })
                } else {
                    Err(
                        ResolveError::LookupFailed {
                            reason: "wavefront-mega: arena slot out of range",
                        },
                    )
                }
            },
            BufferRef::Scratch(_) => Err(
                ResolveError::LookupFailed {
                    reason: "wavefront-mega: serializer emits no Scratch (k_chunks=1 only)",
                },
            ),
            BufferRef::EmbeddedHidden => match embedded {
                Some(address) => Ok(ResolvedBuffer { address, base: 0 }),
                None => Err(
                    ResolveError::LookupFailed {
                        reason: "wavefront-mega: EmbeddedHidden source but no embed-output buffer supplied",
                    },
                ),
            },
            BufferRef::Input(_) => {
                assert(prog.buffers@[i as int] is Input);
                match found[i] {
                    Some(b) => Ok(ResolvedBuffer { address: b.address, base: 0 }),
                    None => Err(ResolveError::WeightMissing { buffer: i }),
                }
            },
            BufferRef::Weight { .. } => match found[i] {
                Some(b) => Ok(b),
                None => Err(ResolveError::WeightMissing { buffer: i }),
            },
        };
        assert(one == expected);
        match one {
            Ok(b) => {
                resolved.push(b);
            },
            Err(e) => {
                return Err(e);
            },
        }
        i += 1;
    }
    Ok(resolved)
}

/// Bytes to allocate for an arena slot or another buffer; a buffer is never
/// empty.
pub fn allocation_len(bytes: usize) -> (n: usize)
    ensures
        n == if bytes == 0 {
            1
        } else {
            bytes
        },
{
    if bytes == 0 {
        1
    } else {
        bytes
    }
}

// ---- Operand table ----

/// The device address of an operand.
pub open spec fn operand_address(resolved: Seq<ResolvedBuffer>, sl: OperandSlot) -> int {
    resolved[sl.buffer as int].address + resolved[sl.buffer as int].base + sl.byte_offset
}

/// Every operand names a resolved buffer, and its address exists.
pub open spec fn operands_valid(operands: Seq<OperandSlot>, resolved: Seq<ResolvedBuffer>) -> bool {
    forall|i: int|
        0 <= i < operands.len() ==> (#[trigger] operands[i]).buffer < resolved.len()
            && operand_address(resolved, operands[i]) <= u64::MAX
}

/// Tests whether every operand names a resolved buffer and its address exists.
pub fn check_operands(prog: &MegaProgram, resolved: &[ResolvedBuffer]) -> (r: bool)
    ensures
        r == operands_valid(prog.operands@, resolved@),
{
    let mut i: usize = 0;
    while i < prog.operands.len()
        invariant
            i <= prog.operands@.len(),
            forall|j: int|
                0 <= j < i ==> (#[trigger] prog.operands@[j]).buffer < resolved@.len()
                    && operand_address(resolved@, prog.operands@[j]) <= u64::MAX,
        decreases prog.operands@.len() - i,
    {
        let sl: OperandSlot = prog.operands[i];
        let at: usize = sl.buffer as usize;
        assert(prog.operands@[i as int] == sl);
        if at >= resolved.len() {
            return false;
        }
        let b: ResolvedBuffer = resolved[at];
        match b.address.checked_add(b.base) {
            Some(start) => {
                if start.checked_add(sl.byte_offset).is_none() {
                    return false;
                }
            },
            None => {
                return false;
            },
        }
        i += 1;
    }
    true
}

/// Builds the operand table: one device address per operand, in order.
pub fn build_operand_table(prog: &MegaProgram, resolved: &[ResolvedBuffer]) -> (table: Vec<u64>)
    requires
        operands_valid(prog.operands@, resolved@),
    ensures
        table@.len() == prog.operands@.len(),
        forall|i: int|
            0 <= i < table@.len() ==> #[trigger] table@[i] == operand_address(
                resolved@,
                prog.operands@[i],
            ),
{
    let mut table: Vec<u64> = Vec::new();
    let mut i: usize = 0;
    while i < prog.operands.len()
        invariant
            i <= prog.operands@.len(),
            operands_valid(prog.operands@, resolved@),
            table@.len() == i,
            forall|j: int|
                0 <= j < i ==> #[trigger] table@[j] == operand_address(
                    resolved@,
                    prog.operands@[j],
                ),
        decreases prog.operands@.len() - i,
    {
        let sl: OperandSlot = prog.operands[i];
        assert(prog.operands@[i as int].buffer < resolved@.len());
        let b: ResolvedBuffer = resolved[sl.buffer as usize];
        table.push(b.address + b.base + sl.byte_offset);
        i += 1;
    }
    table
}

// ---- Launch ----

/// What is uploaded for a program and how it is launched.
#[derive(Debug)]
pub struct MegaDispatchCache {
    pub resolved: Vec<ResolvedBuffer>,
    /// The operand table, eight bytes per operand.
    pub operand_bytes: Vec<u8>,
    /// Bytes of the flag buffer.
    pub flags_len: usize,
    /// Threadgroups of the player.
    pub p: u32,
}

/// Threadgroups of the player: one less than there are tape offsets, at least
/// one.
pub open spec fn player_groups(tape_offsets: int) -> int {
    if (tape_offsets as u32) <= 2 {
        1
    } else {
        (tape_offsets as u32) - 1
    }
}

/// Bytes of the flag buffer: four per flag, and four where there is none.
pub open spec fn flag_bytes(num_flags: u32) -> int {
    if num_flags == 0 {
        4
    } else {
        4 * num_flags
    }
}

/// Returns the number of threadgroups of the player.
pub fn player_threadgroups(prog: &MegaProgram) -> (p: u32)
    ensures
        p == player_groups(prog.tape_offsets@.len() as int),
        p >= 1,
{
    let n: usize = prog.tape_offsets.len();
    let len: u32 = #[verifier::truncate]
    (n as u32);
    if len <= 2 {
        1
    } else {
        len - 1
    }
}

/// Returns the bytes of the flag buffer.
pub fn flags_len(prog: &MegaProgram) -> (n: usize)
    requires
        4 * prog.num_flags <= u32::MAX,
    ensures
        n == flag_bytes(prog.num_flags),
{
    let flags: u32 = if prog.num_flags == 0 {
        1
    } else {
        prog.num_flags
    };
    (flags * 4) as usize
}

/// Copies of each threadgroup: what was asked for, but at least one, and one
/// where nothing was asked for.
pub fn replicas(asked: Option<u32>) -> (k: u32)
    ensures
        k == match asked {
            Some(n) => if n == 0 {
                1
            } else {
                n
            },
            None => 1,
        },
{
    match asked {
        Some(n) => if n == 0 {
            1
        } else {
            n
        },
        None => 1,
    }
}

/// Threads per threadgroup where nothing else was asked for.
pub const PLAYER_THREADS: usize = 1024;

/// Returns the launch grid: threadgroups and their copies, and threads per
/// threadgroup.
pub fn launch_grid(p: u32, asked_copies: Option<u32>, asked_threads: Option<usize>) -> (g: (
    (usize, usize, usize),
    (usize, usize, usize),
))
    ensures
        g.0.0 == p,
        g.0.1 == match asked_copies {
            Some(n) => if n == 0 {
                1
            } else {
                n
            },
            None => 1,
        },
        g.0.2 == 1,
        g.1 == (
            match asked_threads {
                Some(n) => n,
                None => PLAYER_THREADS,
            },
            1usize,
            1usize,
        ),
{
    let threads: usize = match asked_threads {
        Some(n) => n,
        None => PLAYER_THREADS,
    };
    ((p as usize, replicas(asked_copies) as usize, 1), (threads, 1, 1))
}

impl MegaDispatchCache {
    /// Plans a program whose buffers were found.
    pub fn with_resolved(prog: &MegaProgram, resolved: Vec<ResolvedBuffer>) -> (plan:
        MegaDispatchCache)
        requires
            4 * prog.num_flags <= u32::MAX,
            operands_valid(prog.operands@, resolved@),
        ensures
            plan.resolved@ == resolved@,
            plan.operand_bytes@ == le_longs(
                Seq::new(
                    prog.operands@.len(),
                    |i: int| operand_address(resolved@, prog.operands@[i]) as u64,
                ),
            ),
            plan.flags_len == flag_bytes(prog.num_flags),
            plan.p == player_groups(prog.tape_offsets@.len() as int),
    {
        let table = build_operand_table(prog, resolved.as_slice());
        assert(table@ =~= Seq::new(
            prog.operands@.len(),
            |i: int| operand_address(resolved@, prog.operands@[i]) as u64,
        ));
        let operand_bytes = u64_le_bytes(table.as_slice());
        MegaDispatchCache {
            resolved,
            operand_bytes,
            flags_len: flags_len(prog),
            p: player_threadgroups(prog),
        }
    }

    /// Plans a program once, for all its launches.
    pub fn build(
        prog: &MegaProgram,
        arena: &[u64],
        found: &[Option<ResolvedBuffer>],
        embedded: Option<u64>,
    ) -> (r: Result<MegaDispatchCache, ResolveError>)
        requires
            lookups_made(prog.buffers@, found@),
            4 * prog.num_flags <= u32::MAX,
            all_resolve(prog.buffers@, arena@, found@, embedded) ==> operands_valid(
                prog.operands@,
                resolved_buffers(prog.buffers@, arena@, found@, embedded),
            ),
        ensures
            match r {
                Ok(plan) => {
                    &&& plan.resolved@.len() == prog.buffers@.len()
                    &&& forall|i: int|
                        0 <= i < prog.buffers@.len() ==> (#[trigger] resolution(
                            prog.buffers@,
                            arena@,
                            found@,
                            embedded,
                            i,
                        )) == Ok::<ResolvedBuffer, ResolveError>(plan.resolved@[i])
                    &&& plan.operand_bytes@ == le_longs(
                        Seq::new(
                            prog.operands@.len(),
                            |i: int| operand_address(plan.resolved@, prog.operands@[i]) as u64,
                        ),
                    )
                    &&& plan.flags_len == flag_bytes(prog.num_flags)
                    &&& plan.p == player_groups(prog.tape_offsets@.len() as int)
                },
                Err(e) => exists|i: int|
                    0 <= i < prog.buffers@.len() && (#[trigger] resolution(
                        prog.buffers@,
                        arena@,
                        found@,
                        embedded,
                        i,
                    )) == Err::<ResolvedBuffer, ResolveError>(e) && forall|j: int|
                        0 <= j < i ==> (#[trigger] resolution(
                            prog.buffers@,
                            arena@,
                            found@,
                            embedded,
                            j,
                        )) is Ok,
            },
    {
        let resolved = match resolve_mega_buffers(prog, arena, found, embedded) {
            Ok(v) => v,
            Err(e) => return Err(e),
        };
        assert(resolved@ =~= resolved_buffers(prog.buffers@, arena@, found@, embedded));
        Ok(Self::with_resolved(prog, resolved))
    }
}

// ---- Profile ----

/// Bytes that one computation of a shape class reads, estimated.
pub open spec fn class_bytes(c: ShapeClass) -> int {
    match c.op {
        OpKind::Qmv => c.dim1 * c.dim2 / 2,
        OpKind::QmvQuad => c.dim1 * c.dim2 / 2,
        OpKind::QmvCoh => c.dim1 * c.dim2 / 2,
        OpKind::RmsNorm => c.dim1 * 2,
        OpKind::SiluMul => c.dim1 * 2,
        OpKind::Add => c.dim1 * 2,
        OpKind::Rope => c.dim1 * 2,
        OpKind::Attn => c.dim1 * c.dim2 * 4,
        OpKind::SumReduce => c.dim2 * c.dim1 * 2,
        OpKind::RopeAppend => c.dim1 * c.dim2 * 4,
        OpKind::Unprofiled => 0,
        OpKind::OutOfTable => 0,
    }
}

/// Computations of `op` in a tape.
pub open spec fn op_count(tape: Seq<TapeOp>, shapes: Seq<ShapeClass>, op: OpKind) -> int
    decreases tape.len(),
{
    if tape.len() == 0 {
        0
    } else {
        let last = tape.last();
        op_count(tape.drop_last(), shapes, op) + if last.opcode == 0
            && shapes[last.shape as int].op == op {
            1int
        } else {
            0int
        }
    }
}

/// Bytes that the computations of `op` in a tape read.
pub open spec fn op_bytes(tape: Seq<TapeOp>, shapes: Seq<ShapeClass>, op: OpKind) -> int
    decreases tape.len(),
{
    if tape.len() == 0 {
        0
    } else {
        let last = tape.last();
        op_bytes(tape.drop_last(), shapes, op) + if last.opcode == 0
            && shapes[last.shape as int].op == op {
            class_bytes(shapes[last.shape as int])
        } else {
            0int
        }
    }
}

/// Tape instructions that are no computation, and computations with an
/// operation past the table.
pub open spec fn other_count(tape: Seq<TapeOp>, shapes: Seq<ShapeClass>) -> int
    decreases tape.len(),
{
    if tape.len() == 0 {
        0
    } else {
        let last = tape.last();
        other_count(tape.drop_last(), shapes) + if last.opcode != 0
            || shapes[last.shape as int].op is OutOfTable {
            1int
        } else {
            0int
        }
    }
}

/// Bytes that all computations of a tape read.
pub open spec fn tape_bytes(tape: Seq<TapeOp>, shapes: Seq<ShapeClass>) -> int
    decreases tape.len(),
{
    if tape.len() == 0 {
        0
    } else {
        let last = tape.last();
        tape_bytes(tape.drop_last(), shapes) + if last.opcode == 0 {
            class_bytes(shapes[last.shape as int])
        } else {
            0int
        }
    }
}

/// Every computation names a shape class.
pub open spec fn tape_valid(tape: Seq<TapeOp>, shapes: Seq<ShapeClass>) -> bool {
    forall|i: int|
        0 <= i < tape.len() && (#[trigger] tape[i]).opcode == 0 ==> tape[i].shape < shapes.len()
}

/// One row of a profile.
#[derive(Clone, Copy, Debug, PartialEq, Eq)]
pub struct ProfileRow {
    pub op: OpKind,
    pub count: u64,
    pub bytes: u64,
}

/// Profile of a tape.
#[derive(Debug)]
pub struct TapeProfile {
    /// One row per operation that occurs, in the order of the report.
    pub rows: Vec<ProfileRow>,
    pub other: u64,
    pub total_bytes: u64,
}

/// The operations of a report, in order.
pub open spec fn reported_ops() -> Seq<OpKind> {
    seq![
        OpKind::Qmv,
        OpKind::QmvQuad,
        OpKind::QmvCoh,
        OpKind::Attn,
        OpKind::RmsNorm,
        OpKind::SiluMul,
        OpKind::Add,
        OpKind::Rope,
        OpKind::RopeAppend,
        OpKind::SumReduce,
    ]
}

/// The rows of a report on the first `n` operations: one for each that
/// occurs.
pub open spec fn profile_rows(
    tape: Seq<TapeOp>,
    shapes: Seq<ShapeClass>,
    n: int,
) -> Seq<ProfileRow>
    decreases n,
{
    if n <= 0 {
        Seq::empty()
    } else {
        let op = reported_ops()[n - 1];
        let before = profile_rows(tape, shapes, n - 1);
        if op_count(tape, shapes, op) == 0 {
            before
        } else {
            before.push(
                ProfileRow {
                    op,
                    count: op_count(tape, shapes, op) as u64,
                    bytes: op_bytes(tape, shapes, op) as u64,
                },
            )
        }
    }
}

/// A class never reads a negative number of bytes.
proof fn lemma_class_bytes(c: ShapeClass)
    ensures
        class_bytes(c) >= 0,
{
    assert(0 <= c.dim1 * c.dim2) by (nonlinear_arith)
        requires
            c.dim1 >= 0,
            c.dim2 >= 0,
    ;
    assert(0 <= c.dim2 * c.dim1) by (nonlinear_arith)
        requires
            c.dim1 >= 0,
            c.dim2 >= 0,
    ;
}

/// Counts are bounded by the tape's length, and bytes by the tape's bytes,
/// which only grow along the tape.
proof fn lemma_profile_bounds(tape: Seq<TapeOp>, shapes: Seq<ShapeClass>, op: OpKind, n: int)
    requires
        0 <= n <= tape.len(),
    ensures
        0 <= op_count(tape, shapes, op) <= tape.len(),
        0 <= op_bytes(tape, shapes, op) <= tape_bytes(tape, shapes),
        0 <= other_count(tape, shapes) <= tape.len(),
        0 <= tape_bytes(tape.take(n), shapes) <= tape_bytes(tape, shapes),
    decreases tape.len(),
{
    if tape.len() > 0 {
        let front = tape.drop_last();
        lemma_class_bytes(shapes[tape.last().shape as int]);
        if n == tape.len() {
            lemma_profile_bounds(front, shapes, op, n - 1);
            assert(tape.take(n) =~= tape);
        } else {
            lemma_profile_bounds(front, shapes, op, n);
            assert(front.take(n) =~= tape.take(n));
        }
    }
}

/// Counts and bytes of one operation.
fn op_totals(tape: &Vec<TapeOp>, shapes: &Vec<ShapeClass>, op: OpKind) -> (r: (u64, u64))
    requires
        tape_valid(tape@, shapes@),
        tape_bytes(tape@, shapes@) <= u64::MAX,
    ensures
        r.0 == op_count(tape@, shapes@, op),
        r.1 == op_bytes(tape@, shapes@, op),
{
    let mut count: u64 = 0;
    let mut bytes: u64 = 0;
    let mut i: usize = 0;
    while i < tape.len()
        invariant
            i <= tape@.len(),
            tape_valid(tape@, shapes@),
            tape_bytes(tape@, shapes@) <= u64::MAX,
            count == op_count(tape@.take(i as int), shapes@, op),
            bytes == op_bytes(tape@.take(i as int), shapes@, op),
        decreases tape@.len() - i,
    {
        let ins: TapeOp = tape[i];
        let ghost front = tape@.take(i as int);
        let ghost longer = tape@.take(i + 1);
        proof {
            assert(longer.drop_last() =~= front);
            assert(longer.last() == ins);
            lemma_profile_bounds(front, shapes@, op, 0);
            lemma_profile_bounds(longer, shapes@, op, i as int);
            lemma_profile_bounds(tape@, shapes@, op, i + 1);
        }
        if ins.opcode == 0 {
            let class: ShapeClass = shapes[ins.shape as usize];
            proof {
                lemma_class_bytes(class);
            }
            if class.op == op {
                assert(class_bytes(class) <= u64::MAX);
                bytes = bytes + wide_bytes(class) as u64;
                count = count + 1;
            }
        }
        i += 1;
    }
    assert(tape@.take(i as int) =~= tape@);
    (count, bytes)
}

/// Number of tape instructions that count as other.
fn other_total(tape: &Vec<TapeOp>, shapes: &Vec<ShapeClass>) -> (n: u64)
    requires
        tape_valid(tape@, shapes@),
    ensures
        n == other_count(tape@, shapes@),
{
    let mut n: u64 = 0;
    let mut i: usize = 0;
    while i < tape.len()
        invariant
            i <= tape@.len(),
            tape_valid(tape@, shapes@),
            n == other_count(tape@.take(i as int), shapes@),
            n <= i,
        decreases tape@.len() - i,
    {
        let ins: TapeOp = tape[i];
        let ghost front = tape@.take(i as int);
        let ghost longer = tape@.take(i + 1);
        proof {
            assert(longer.drop_last() =~= front);
            assert(longer.last() == ins);
        }
        let other: bool = if ins.opcode != 0 {
            true
        } else {
            shapes[ins.shape as usize].op == OpKind::OutOfTable
        };
        if other {
            n = n + 1;
        }
        i += 1;
    }
    assert(tape@.take(i as int) =~= tape@);
    n
}

/// The operation at place `i` of a report.
fn reported_op(i: usize) -> (op: OpKind)
    requires
        i < 10,
    ensures
        op == reported_ops()[i as int],
{
    if i == 0 {
        OpKind::Qmv
    } else if i == 1 {
        OpKind::QmvQuad
    } else if i == 2 {
        OpKind::QmvCoh
    } else if i == 3 {
        OpKind::Attn
    } else if i == 4 {
        OpKind::RmsNorm
    } else if i == 5 {
        OpKind::SiluMul
    } else if i == 6 {
        OpKind::Add
    } else if i == 7 {
        OpKind::Rope
    } else if i == 8 {
        OpKind::RopeAppend
    } else {
        OpKind::SumReduce
    }
}

/// Bytes of the first `n` reported operations.
pub open spec fn reported_bytes(tape: Seq<TapeOp>, shapes: Seq<ShapeClass>, n: int) -> int
    decreases n,
{
    if n <= 0 {
        0
    } else {
        reported_bytes(tape, shapes, n - 1) + op_bytes(tape, shapes, reported_ops()[n - 1])
    }
}

/// The reported operations read all the bytes of a tape, and the first `n` of
/// them no more than all.
pub proof fn lemma_reported_bytes(tape: Seq<TapeOp>, shapes: Seq<ShapeClass>, n: int)
    requires
        0 <= n <= 10,
    ensures
        reported_bytes(tape, shapes, 10) == tape_bytes(tape, shapes),
        0 <= reported_bytes(tape, shapes, n) <= reported_bytes(tape, shapes, 10),
    decreases tape.len(),
{
    reveal_with_fuel(reported_bytes, 11);
    if tape.len() > 0 {
        let front = tape.drop_last();
        lemma_reported_bytes(front, shapes, n);
        lemma_class_bytes(shapes[tape.last().shape as int]);
        lemma_bytes_nonneg(tape, shapes, n);
    } else {
        lemma_bytes_nonneg(tape, shapes, n);
    }
}

proof fn lemma_bytes_nonneg(tape: Seq<TapeOp>, shapes: Seq<ShapeClass>, n: int)
    requires
        0 <= n <= 10,
    ensures
        0 <= reported_bytes(tape, shapes, n) <= reported_bytes(tape, shapes, 10),
    decreases 10 - n,
{
    lemma_prefix_nonneg(tape, shapes, n);
    if n < 10 {
        lemma_bytes_nonneg(tape, shapes, n + 1);
        lemma_profile_bounds(tape, shapes, reported_ops()[n], 0);
    }
}

proof fn lemma_prefix_nonneg(tape: Seq<TapeOp>, shapes: Seq<ShapeClass>, n: int)
    requires
        0 <= n <= 10,
    ensures
        0 <= reported_bytes(tape, shapes, n),
    decreases n,
{
    if n > 0 {
        lemma_prefix_nonneg(tape, shapes, n - 1);
        lemma_profile_bounds(tape, shapes, reported_ops()[n - 1], 0);
    }
}

/// Tests whether a tape can be profiled: every computation names a shape
/// class, and the bytes can be counted.
pub fn check_profile(prog: &MegaProgram) -> (r: bool)
    ensures
        r == (tape_valid(prog.tape@, prog.shapes@) && tape_bytes(prog.tape@, prog.shapes@)
            <= u64::MAX),
{
    let ghost tape = prog.tape@;
    let ghost shapes = prog.shapes@;
    let mut i: usize = 0;
    while i < prog.tape.len()
        invariant
            i <= tape.len(),
            tape == prog.tape@,
            shapes == prog.shapes@,
            forall|j: int|
                0 <= j < i && (#[trigger] tape[j]).opcode == 0 ==> tape[j].shape < shapes.len(),
        decreases tape.len() - i,
    {
        let ins: TapeOp = prog.tape[i];
        assert(tape[i as int] == ins);
        if ins.opcode == 0 && ins.shape as usize >= prog.shapes.len() {
            return false;
        }
        i += 1;
    }
    let mut total: u128 = 0;
    let mut i: usize = 0;
    while i < prog.tape.len()
        invariant
            i <= tape.len(),
            tape == prog.tape@,
            shapes == prog.shapes@,
            tape_valid(tape, shapes),
            total == tape_bytes(tape.take(i as int), shapes),
            total <= u64::MAX,
        decreases tape.len() - i,
    {
        let ins: TapeOp = prog.tape[i];
        proof {
            assert(tape.take(i + 1).drop_last() =~= tape.take(i as int));
            assert(tape.take(i + 1).last() == ins);
            lemma_profile_bounds(tape, shapes, OpKind::Qmv, i + 1);
        }
        if ins.opcode == 0 {
            assert(tape[i as int].shape < shapes.len());
            total = total + wide_bytes(prog.shapes[ins.shape as usize]);
            if total > u64::MAX as u128 {
                return false;
            }
        }
        i += 1;
    }
    assert(tape.take(i as int) =~= tape);
    true
}

/// Bytes of one computation, in a width that always suffices.
fn wide_bytes(c: ShapeClass) -> (b: u128)
    ensures
        b == class_bytes(c),
        b <= 0x4_0000_0000_0000_0000,
{
    let x: u128 = c.dim1 as u128;
    let y: u128 = c.dim2 as u128;
    proof {
        assert(0 <= x * y <= 0xffff_ffff * 0xffff_ffff) by (nonlinear_arith)
            requires
                0 <= x <= 0xffff_ffff,
                0 <= y <= 0xffff_ffff,
        ;
        assert(x * y == y * x) by (nonlinear_arith);
    }
    match c.op {
        OpKind::Qmv | OpKind::QmvQuad | OpKind::QmvCoh => x * y / 2,
        OpKind::RmsNorm | OpKind::SiluMul | OpKind::Add | OpKind::Rope => x * 2,
        OpKind::Attn | OpKind::RopeAppend => x * y * 4,
        OpKind::SumReduce => y * x * 2,
        OpKind::Unprofiled | OpKind::OutOfTable => 0,
    }
}

/// Profiles a tape: per operation how often it occurs and how much it reads.
pub fn tape_profile(prog: &MegaProgram) -> (p: TapeProfile)
    requires
        tape_valid(prog.tape@, prog.shapes@),
        tape_bytes(prog.tape@, prog.shapes@) <= u64::MAX,
    ensures
        p.rows@ == profile_rows(prog.tape@, prog.shapes@, 10),
        p.other == other_count(prog.tape@, prog.shapes@),
        p.total_bytes == tape_bytes(prog.tape@, prog.shapes@),
{
    let ghost tape = prog.tape@;
    let ghost shapes = prog.shapes@;
    let mut rows: Vec<ProfileRow> = Vec::new();
    let mut total_bytes: u64 = 0;
    let mut i: usize = 0;
    while i < 10
        invariant
            i <= 10,
            tape == prog.tape@,
            shapes == prog.shapes@,
            tape_valid(tape, shapes),
            tape_bytes(tape, shapes) <= u64::MAX,
            rows@ == profile_rows(tape, shapes, i as int),
            total_bytes == reported_bytes(tape, shapes, i as int),
        decreases 10 - i,
    {
        let op = reported_op(i);
        let (count, bytes) = op_totals(&prog.tape, &prog.shapes, op);
        proof {
            lemma_reported_bytes(tape, shapes, i + 1);
            lemma_no_count_no_bytes(tape, shapes, op);
        }
        if count != 0 {
            rows.push(ProfileRow { op, count, bytes });
            total_bytes = total_bytes + bytes;
        }
        i += 1;
    }
    proof {
        lemma_reported_bytes(tape, shapes, 10);
    }
    TapeProfile { rows, other: other_total(&prog.tape, &prog.shapes), total_bytes }
}

/// An operation that does not occur reads nothing.
proof fn lemma_no_count_no_bytes(tape: Seq<TapeOp>, shapes: Seq<ShapeClass>, op: OpKind)
    ensures
        op_count(tape, shapes, op) == 0 ==> op_bytes(tape, shapes, op) == 0,
    decreases tape.len(),
{
    if tape.len() > 0 {
        lemma_no_count_no_bytes(tape.drop_last(), shapes, op);
        lemma_profile_bounds(tape.drop_last(), shapes, op, 0);
    }
}

// ---- Laws ----

/// Computations of the first `n` reported operations.
pub open spec fn reported_count(tape: Seq<TapeOp>, shapes: Seq<ShapeClass>, n: int) -> int
    decreases n,
{
    if n <= 0 {
        0
    } else {
        reported_count(tape, shapes, n - 1) + op_count(tape, shapes, reported_ops()[n - 1])
    }
}

/// A profile accounts for every tape instruction exactly once: it is a
/// reported operation, an unprofiled one, or counted as other.
pub proof fn law_every_instruction_is_counted(tape: Seq<TapeOp>, shapes: Seq<ShapeClass>)
    ensures
        reported_count(tape, shapes, 10) + op_count(tape, shapes, OpKind::Unprofiled)
            + other_count(tape, shapes) == tape.len(),
    decreases tape.len(),
{
    reveal_with_fuel(reported_count, 11);
    if tape.len() > 0 {
        law_every_instruction_is_counted(tape.drop_last(), shapes);
    }
}

/// The player reads back from the operand table the address of every operand.
pub proof fn law_operand_table_reads_back(addresses: Seq<u64>, i: int)
    requires
        0 <= i < addresses.len(),
    ensures
        le_longs(addresses).len() == 8 * addresses.len(),
        le_value(le_longs(addresses).subrange(8 * i, 8 * i + 8)) == addresses[i],
{
    lemma_longs_read_back(addresses, Seq::empty());
    assert(le_longs(addresses) + Seq::<u8>::empty() =~= le_longs(addresses));
}

/// A weight is looked up under the bundle and the tensor of the same name, in
/// its layer and at its place.
pub proof fn law_weights_are_looked_up_by_name(
    bundle: WeightBundle,
    role: WeightRole,
    loc: WeightLoc,
)
    ensures
        request_of(BufferRef::Weight { bundle, role, loc }) matches LookupRequest::Weight {
            kind,
            which,
            layer,
            locator,
        } && {
            &&& bundle is RmsNorm <==> kind is RmsNorm
            &&& bundle is Embedding <==> kind is Embedding
            &&& bundle is LinearLayer <==> kind is LinearLayer
            &&& bundle is CosSin <==> kind is CosSin
            &&& bundle is AffineQuantEmbedding <==> kind is AffineQuantEmbedding
            &&& role is Weight <==> which is Weight
            &&& role is Bias <==> which is Bias
            &&& role is AffineScales <==> which is AffineScales
            &&& role is AffineBiases <==> which is AffineBiases
            &&& role is AffineLinearBias <==> which is AffineLinearBias
            &&& layer.0 == loc.layer
            &&& locator.bucket == loc.bucket
            &&& locator.op_idx == loc.op_idx
            &&& locator.slot == loc.slot
        },
{
}

/// An input is looked up as the runtime buffer of the same name, a cache in
/// its layer.
pub proof fn law_inputs_are_looked_up_by_name(input: InputKind)
    ensures
        request_of(BufferRef::Input(input)) matches LookupRequest::Runtime(kind) && {
            &&& input is InputIds <==> kind is InputIds
            &&& input is Positions <==> kind is Positions
            &&& input is SlotMapping <==> kind is SlotMapping
            &&& input is CuSeqlensQ <==> kind is CuSeqlensQ
            &&& input is SeqUsedK <==> kind is SeqUsedK
            &&& input is BlockTable <==> kind is BlockTable
            &&& input is NumTokens <==> kind is NumTokensU32
            &&& input matches InputKind::KvCacheK { layer } ==> kind
                == (RuntimeBindingKind::KvCacheK { layer: LayerId(layer) })
            &&& input matches InputKind::KvCacheV { layer } ==> kind
                == (RuntimeBindingKind::KvCacheV { layer: LayerId(layer) })
        },
{
}

/// Different buffers ask for different lookups: only what lies in the program
/// itself asks for none, and no two others ask for the same.
pub proof fn law_lookups_tell_buffers_apart(a: BufferRef, b: BufferRef)
    ensures
        request_of(a) is Nothing <==> a is ArenaSlot || a is Scratch || a is EmbeddedHidden,
        request_of(a) == request_of(b) && request_of(a) !is Nothing ==> a == b,
{
    if let BufferRef::Weight { bundle, role, loc } = a {
        law_weights_are_looked_up_by_name(bundle, role, loc);
        if let BufferRef::Weight { bundle: c, role: r, loc: l } = b {
            law_weights_are_looked_up_by_name(c, r, l);
        }
    }
    if let BufferRef::Input(x) = a {
        law_inputs_are_looked_up_by_name(x);
        if let BufferRef::Input(y) = b {
            law_inputs_are_looked_up_by_name(y);
        }
    }
}

/// A buffer of a program is where it was allocated or found: an arena slot at
/// the start of that slot, an input at the start of its runtime buffer, the
/// hidden state at the embedding output, and a weight where the lookup found
/// it. It cannot be found exactly if there is no such slot, output or weight.
pub proof fn law_buffers_are_where_they_were_found(
    buffers: Seq<BufferRef>,
    arena: Seq<u64>,
    found: Seq<Option<ResolvedBuffer>>,
    embedded: Option<u64>,
    i: int,
)
    requires
        0 <= i < buffers.len(),
        lookups_made(buffers, found),
    ensures
        ({
            let r = resolution(buffers, arena, found, embedded, i);
            match buffers[i] {
                BufferRef::ArenaSlot(slot) => {
                    &&& r is Ok <==> slot < arena.len()
                    &&& r matches Ok(b) ==> b.address == arena[slot as int] && b.base == 0
                },
                BufferRef::Scratch(_) => r is Err,
                BufferRef::EmbeddedHidden => {
                    &&& r is Ok <==> embedded is Some
                    &&& r matches Ok(b) ==> embedded == Some(b.address) && b.base == 0
                },
                BufferRef::Input(_) => {
                    &&& r matches Ok(b)
                    &&& found[i] matches Some(f)
                    &&& b.address == f.address && b.base == 0
                },
                BufferRef::Weight { .. } => {
                    &&& r is Ok <==> found[i] is Some
                    &&& r matches Ok(b) ==> found[i] == Some(b)
                    &&& r matches Err(e) ==> e == (ResolveError::WeightMissing {
                        buffer: i as usize,
                    })
                },
            }
        }),
{
}

/// An operand points `byte_offset` bytes behind the start of its tensor, which
/// starts `base` bytes into its buffer.
pub proof fn law_operands_point_into_their_buffers(
    resolved: Seq<ResolvedBuffer>,
    operands: Seq<OperandSlot>,
    i: int,
    j: int,
)
    requires
        operands_valid(operands, resolved),
        0 <= i < operands.len(),
        0 <= j < operands.len(),
    ensures
        operands[i].buffer < resolved.len(),
        operand_address(resolved, operands[i]) == resolved[operands[i].buffer as int].address
            + resolved[operands[i].buffer as int].base + operands[i].byte_offset <= u64::MAX,
        operands[i].buffer == operands[j].buffer ==> operand_address(resolved, operands[i])
            - operand_address(resolved, operands[j]) == operands[i].byte_offset
            - operands[j].byte_offset,
{
}

/// The player runs one threadgroup per pair of neighbouring tape offsets, and
/// one where there is none; the flag buffer holds every flag and is never
/// empty.
pub proof fn law_player_covers_its_program(tape_offsets: int, num_flags: u32)
    requires
        0 <= tape_offsets <= u32::MAX,
    ensures
        tape_offsets >= 2 ==> player_groups(tape_offsets) == tape_offsets - 1,
        tape_offsets < 2 ==> player_groups(tape_offsets) == 1,
        num_flags > 0 ==> flag_bytes(num_flags) == 4 * num_flags,
        num_flags == 0 ==> flag_bytes(num_flags) == 4,
        PLAYER_THREADS == 1024,
{
}

/// What a computation reads: half a byte per weight of a matrix-vector product,
/// two bytes per element of an elementwise operation and of every partial of a
/// sum, and four bytes per element of attention and of a rotary append.
pub proof fn law_reads_follow_the_shape(c: ShapeClass)
    ensures
        c.op is Qmv || c.op is QmvQuad || c.op is QmvCoh ==> class_bytes(c) * 2 <= c.dim1 * c.dim2
            < class_bytes(c) * 2 + 2,
        c.op is RmsNorm || c.op is SiluMul || c.op is Add || c.op is Rope ==> class_bytes(c)
            == c.dim1 + c.dim1,
        c.op is Attn || c.op is RopeAppend ==> class_bytes(c) == 4 * (c.dim1 * c.dim2),
        c.op is SumReduce ==> class_bytes(c) == 2 * (c.dim1 * c.dim2),
        c.op is Unprofiled || c.op is OutOfTable ==> class_bytes(c) == 0,
{
    assert(c.dim2 * c.dim1 == c.dim1 * c.dim2) by (nonlinear_arith);
}

/// One more computation counts once under its own operation, with the bytes of
/// its class, and under no other; one more synchronization counts as other and
/// reads nothing.
pub proof fn law_profiles_grow_with_the_tape(
    tape: Seq<TapeOp>,
    shapes: Seq<ShapeClass>,
    ins: TapeOp,
    op: OpKind,
)
    ensures
        ({
            let longer = tape.push(ins);
            let class = shapes[ins.shape as int];
            let hit = ins.opcode == 0 && class.op == op;
            &&& op_count(longer, shapes, op) - op_count(tape, shapes, op) == if hit {
                1int
            } else {
                0
            }
            &&& op_bytes(longer, shapes, op) - op_bytes(tape, shapes, op) == if hit {
                class_bytes(class)
            } else {
                0
            }
            &&& other_count(longer, shapes) - other_count(tape, shapes) == if ins.opcode != 0
                || class.op is OutOfTable {
                1int
            } else {
                0
            }
            &&& tape_bytes(longer, shapes) - tape_bytes(tape, shapes) == if ins.opcode == 0 {
                class_bytes(class)
            } else {
                0
            }
            &&& op_count(Seq::empty(), shapes, op) == 0 && op_bytes(Seq::empty(), shapes, op) == 0
            &&& other_count(Seq::empty(), shapes) == 0 && tape_bytes(Seq::empty(), shapes) == 0
        }),
{
    assert(tape.push(ins).drop_last() =~= tape);
}

/// Every row of a profile is that of an operation that occurs, with its count
/// and its bytes, and every reported operation that occurs has a row.
pub proof fn law_rows_are_what_occurs(tape: Seq<TapeOp>, shapes: Seq<ShapeClass>, n: int)
    requires
        0 <= n <= 10,
    ensures
        ({
            let rows = profile_rows(tape, shapes, n);
            &&& forall|i: int|
                0 <= i < rows.len() ==> {
                    let row = #[trigger] rows[i];
                    &&& op_count(tape, shapes, row.op) != 0
                    &&& row.count == op_count(tape, shapes, row.op) as u64
                    &&& row.bytes == op_bytes(tape, shapes, row.op) as u64
                }
            &&& forall|k: int|
                0 <= k < n && op_count(tape, shapes, #[trigger] reported_ops()[k]) != 0
                    ==> exists|i: int|
                    0 <= i < rows.len() && (#[trigger] rows[i]).op == reported_ops()[k]
        }),
    decreases n,
{
    if n > 0 {
        law_rows_are_what_occurs(tape, shapes, n - 1);
        let before = profile_rows(tape, shapes, n - 1);
        let rows = profile_rows(tape, shapes, n);
        assert forall|k: int|
            0 <= k < n && op_count(
                tape,
                shapes,
                #[trigger] reported_ops()[k],
            ) != 0 implies exists|i: int|
            0 <= i < rows.len() && (#[trigger] rows[i]).op == reported_ops()[k] by {
            if k < n - 1 {
                let i = choose|i: int|
                    0 <= i < before.len() && (#[trigger] before[i]).op == reported_ops()[k];
                assert(rows[i] == before[i]);
            } else {
                assert(rows[rows.len() - 1].op == reported_ops()[k]);
            }
        }
    }
}

/// A report lists weight reads first, then attention, norms and elementwise
/// operations, and sums last.
pub proof fn law_report_order()
    ensures
        reported_ops().len() == 10,
        reported_ops()[0] is Qmv,
        reported_ops()[1] is QmvQuad,
        reported_ops()[2] is QmvCoh,
        reported_ops()[3] is Attn,
        reported_ops()[4] is RmsNorm,
        reported_ops()[5] is SiluMul,
        reported_ops()[6] is Add,
        reported_ops()[7] is Rope,
        reported_ops()[8] is RopeAppend,
        reported_ops()[9] is SumReduce,
{
}

/// The player's symbol names the activation type, the scale type, the group
/// size and the bits, in this order.
pub proof fn law_player_symbol_names_its_types(scale: ScaleDtype, group_size: u32, bits: u32)
    ensures
        ({
            let scale_name = if scale is Bf16 {
                "bf16"@
            } else {
                "f16"@
            };
            let tail = decimal(group_size as nat) + "_b_"@ + decimal(bits as nat);
            &&& player_symbol_text(DequantDtype::F16, scale, group_size, bits)
                == "wavefront_player_"@ + "f16"@ + "_s_"@ + scale_name + "_gs_"@ + tail
            &&& player_symbol_text(DequantDtype::Bf16, scale, group_size, bits)
                == "wavefront_player_"@ + "bf16"@ + "_s_"@ + scale_name + "_gs_"@ + tail
        }),
{
    let tail = decimal(group_size as nat) + "_b_"@ + decimal(bits as nat);
    let scale_name = scale_infix(scale)@;
    assert(player_symbol_text(DequantDtype::F16, scale, group_size, bits)
        =~= "wavefront_player_"@ + "f16"@ + "_s_"@ + scale_name + "_gs_"@ + tail);
    assert(player_symbol_text(DequantDtype::Bf16, scale, group_size, bits)
        =~= "wavefront_player_"@ + "bf16"@ + "_s_"@ + scale_name + "_gs_"@ + tail);
}

/// The rows of a profile come in the order of the report, one for each
/// operation that occurs: reporting on one more operation adds its row at the
/// end, or none.
pub proof fn law_rows_come_in_report_order(tape: Seq<TapeOp>, shapes: Seq<ShapeClass>, n: int)
    requires
        0 < n <= 10,
    ensures
        ({
            let before = profile_rows(tape, shapes, n - 1);
            let rows = profile_rows(tape, shapes, n);
            let op = reported_ops()[n - 1];
            &&& profile_rows(tape, shapes, 0).len() == 0
            &&& op_count(tape, shapes, op) == 0 ==> rows == before
            &&& op_count(tape, shapes, op) != 0 ==> {
                &&& rows.len() == before.len() + 1
                &&& rows.drop_last() == before
                &&& rows.last().op == op
            }
        }),
{
    let before = profile_rows(tape, shapes, n - 1);
    let rows = profile_rows(tape, shapes, n);
    if op_count(tape, shapes, reported_ops()[n - 1]) != 0 {
        assert(rows.drop_last() =~= before);
    }
}

/// Operands are valid exactly if each names a buffer that there is and its
/// address can be counted, and a tape exactly if each computation names a shape
/// that there is.
pub proof fn law_what_can_be_played(
    operands: Seq<OperandSlot>,
    resolved: Seq<ResolvedBuffer>,
    tape: Seq<TapeOp>,
    shapes: Seq<ShapeClass>,
)
    ensures
        operands_valid(operands, resolved) <==> forall|i: int|
            0 <= i < operands.len() ==> {
                let sl = #[trigger] operands[i];
                let b = resolved[sl.buffer as int];
                sl.buffer < resolved.len() && b.address + b.base + sl.byte_offset <= u64::MAX
            },
        tape_valid(tape, shapes) <==> forall|i: int|
            0 <= i < tape.len() ==> (#[trigger] tape[i]).opcode != 0 || tape[i].shape
                < shapes.len(),
{
}

} // verus!
