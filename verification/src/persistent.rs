//! The protocol of a decode kernel that stays resident.
//!
//! Host and kernel share one page of pinned memory. The host writes the
//! inputs of a step and raises `cpu_step`; the kernel computes, writes the
//! output token and raises `gpu_step`. The functions here say what is written
//! where and in what order; the caller writes it.
use crate::bytes::{
    le_bytes, le_value, lemma_le_bytes_len, lemma_u32_round_trip, lemma_u64_round_trip,
};
use crate::protocol_layout::{
    MAX_BLOCKS, N, OFFSET_BLOCK_TABLE, OFFSET_BLOCK_TABLE_STRIDE, OFFSET_CPU_STEP,
    OFFSET_GPU_STEP, OFFSET_INPUT_IDS, OFFSET_OUTPUT_TOKENS, OFFSET_POSITIONS, OFFSET_SEQ_LENS,
    OFFSET_SLOT_MAPPING, OFFSET_STOP_FLAG, PROTOCOL_BYTES,
};
use vstd::prelude::*;

verus! {

/// One action on the shared buffer.
#[derive(Clone, Copy, Debug, PartialEq, Eq, Structural)]
pub enum ProtoOp {
    WriteU32 { offset: usize, value: u32 },
    WriteI32 { offset: usize, value: i32 },
    WriteI64 { offset: usize, value: i64 },
    /// Everything before becomes visible before anything after.
    FenceRelease,
}

/// The bits of an `i32`, as an unsigned number.
pub open spec fn bits_i32(x: i32) -> nat {
    (if x < 0 {
        x + 0x1_0000_0000
    } else {
        x as int
    }) as nat
}

/// The bits of an `i64`, as an unsigned number.
pub open spec fn bits_i64(x: i64) -> nat {
    (if x < 0 {
        x + 0x1_0000_0000_0000_0000
    } else {
        x as int
    }) as nat
}

/// A buffer in which `bytes` were written at `offset`.
pub open spec fn spliced(buf: Seq<u8>, offset: int, bytes: Seq<u8>) -> Seq<u8> {
    Seq::new(
        buf.len(),
        |j: int|
            if offset <= j < offset + bytes.len() {
                bytes[j - offset]
            } else {
                buf[j]
            },
    )
}

/// A buffer after one action.
pub open spec fn applied(buf: Seq<u8>, op: ProtoOp) -> Seq<u8> {
    match op {
        ProtoOp::WriteU32 { offset, value } => spliced(
            buf,
            offset as int,
            le_bytes(value as nat, 4),
        ),
        ProtoOp::WriteI32 { offset, value } => spliced(
            buf,
            offset as int,
            le_bytes(bits_i32(value), 4),
        ),
        ProtoOp::WriteI64 { offset, value } => spliced(
            buf,
            offset as int,
            le_bytes(bits_i64(value), 8),
        ),
        ProtoOp::FenceRelease => buf,
    }
}

/// A buffer after a sequence of actions.
pub open spec fn applied_all(buf: Seq<u8>, ops: Seq<ProtoOp>) -> Seq<u8>
    decreases ops.len(),
{
    if ops.len() == 0 {
        buf
    } else {
        applied(applied_all(buf, ops.drop_last()), ops.last())
    }
}

/// The 32-bit word at a byte offset.
pub open spec fn word(buf: Seq<u8>, offset: int) -> nat {
    le_value(buf.subrange(offset, offset + 4))
}

/// The inputs of one step.
#[derive(Clone, Copy, Debug)]
pub struct StepInput<'a> {
    pub input_id: u32,
    pub position: u32,
    pub seq_len: i32,
    pub slot_mapping: i64,
    pub block_table_stride: u32,
    /// Blocks of the sequence; those past the table are left out.
    pub block_ids: &'a [u32],
}

/// Block ids that fit into the table.
pub open spec fn ids_kept(input: StepInput<'_>) -> int {
    if input.block_ids@.len() < MAX_BLOCKS {
        input.block_ids@.len() as int
    } else {
        MAX_BLOCKS as int
    }
}

/// Table entries that are written: the ids, and zeros up to the stride.
pub open spec fn entries_written(input: StepInput<'_>) -> int {
    let stride = if input.block_table_stride < MAX_BLOCKS {
        input.block_table_stride as int
    } else {
        MAX_BLOCKS as int
    };
    if ids_kept(input) < stride {
        stride
    } else {
        ids_kept(input)
    }
}

/// Entry `i` of the table.
pub open spec fn table_entry(input: StepInput<'_>, i: int) -> u32 {
    if i < ids_kept(input) {
        input.block_ids@[i]
    } else {
        0
    }
}

/// The scalar inputs of a step.
pub open spec fn scalar_ops(input: StepInput<'_>) -> Seq<ProtoOp> {
    seq![
        ProtoOp::WriteU32 { offset: OFFSET_INPUT_IDS, value: input.input_id },
        ProtoOp::WriteU32 { offset: OFFSET_POSITIONS, value: input.position },
        ProtoOp::WriteI32 { offset: OFFSET_SEQ_LENS, value: input.seq_len },
        ProtoOp::WriteI64 { offset: OFFSET_SLOT_MAPPING, value: input.slot_mapping },
        ProtoOp::WriteU32 {
            offset: OFFSET_BLOCK_TABLE_STRIDE,
            value: input.block_table_stride,
        },
    ]
}

/// The first `n` entries of the block table.
pub open spec fn table_ops(input: StepInput<'_>, n: int) -> Seq<ProtoOp> {
    Seq::new(
        n as nat,
        |i: int|
            ProtoOp::WriteU32 {
                offset: (OFFSET_BLOCK_TABLE + 4 * i) as usize,
                value: table_entry(input, i),
            },
    )
}

/// Everything that is written for a step.
pub open spec fn step_input_ops(input: StepInput<'_>) -> Seq<ProtoOp> {
    scalar_ops(input) + table_ops(input, entries_written(input))
}

/// Host side of a resident decode kernel.
#[derive(Debug)]
pub struct PersistentDecodeSession {
    step: u32,
    /// The token that the last step produced.
    pub last_output_token: u32,
}

impl PersistentDecodeSession {
    /// Steps that are over.
    pub closed spec fn steps_done(&self) -> u32 {
        self.step
    }

    /// The token that the last step produced.
    pub closed spec fn last_token(&self) -> u32 {
        self.last_output_token
    }

    /// A session on a fresh buffer, which starts out as zeros, or the code
    /// with which allocating the buffer failed.
    pub fn alloc_session(rc: i32) -> (r: Result<Self, i32>)
        ensures
            rc == 0 ==> (r matches Ok(s) && s.steps_done() == 0 && s.last_token() == 0),
            rc != 0 ==> r == Err::<Self, i32>(rc),
    {
        if rc != 0 {
            return Err(rc);
        }
        Ok(PersistentDecodeSession { step: 0, last_output_token: 0 })
    }

    /// The step that the kernel expects next.
    pub fn current_step(&self) -> (n: u32)
        ensures
            n == self.steps_done(),
    {
        self.step
    }

    /// Says what to write for the next step, before it is released.
    pub fn write_step_input(&self, input: &StepInput<'_>) -> (ops: Vec<ProtoOp>)
        ensures
            ops@ == step_input_ops(*input),
    {
        let mut ops: Vec<ProtoOp> = vec![
            ProtoOp::WriteU32 { offset: OFFSET_INPUT_IDS, value: input.input_id },
            ProtoOp::WriteU32 { offset: OFFSET_POSITIONS, value: input.position },
            ProtoOp::WriteI32 { offset: OFFSET_SEQ_LENS, value: input.seq_len },
            ProtoOp::WriteI64 { offset: OFFSET_SLOT_MAPPING, value: input.slot_mapping },
            ProtoOp::WriteU32 {
                offset: OFFSET_BLOCK_TABLE_STRIDE,
                value: input.block_table_stride,
            },
        ];
        let ids: usize = input.block_ids.len();
        let n: usize = if ids < MAX_BLOCKS {
            ids
        } else {
            MAX_BLOCKS
        };
        let stride: usize = if (input.block_table_stride as usize) < MAX_BLOCKS {
            input.block_table_stride as usize
        } else {
            MAX_BLOCKS
        };
        let end: usize = if n < stride {
            stride
        } else {
            n
        };
        assert(ops@ =~= scalar_ops(*input) + table_ops(*input, 0));
        let mut i: usize = 0;
        while i < end
            invariant
                i <= end,
                end <= MAX_BLOCKS,
                n <= input.block_ids@.len(),
                n == ids_kept(*input),
                ops@ == scalar_ops(*input) + table_ops(*input, i as int),
            decreases end - i,
        {
            let value: u32 = if i < n {
                input.block_ids[i]
            } else {
                0
            };
            ops.push(ProtoOp::WriteU32 { offset: OFFSET_BLOCK_TABLE + 4 * i, value });
            i += 1;
            assert(ops@ =~= scalar_ops(*input) + table_ops(*input, i as int));
        }
        ops
    }

    /// Says how to release the step whose inputs were written: a fence, then
    /// the new value of `cpu_step`.
    pub fn signal_cpu_step(&self) -> (ops: Vec<ProtoOp>)
        requires
            self.steps_done() < u32::MAX,
        ensures
            ops@ == seq![
                ProtoOp::FenceRelease,
                ProtoOp::WriteU32 {
                    offset: OFFSET_CPU_STEP,
                    value: (self.steps_done() + 1) as u32,
                },
            ],
    {
        vec![
            ProtoOp::FenceRelease,
            ProtoOp::WriteU32 { offset: OFFSET_CPU_STEP, value: self.step + 1 },
        ]
    }

    /// Whether the kernel, which has finished `gpu_step` steps, has finished
    /// the step that was released.
    pub fn output_ready(&self, gpu_step: u32) -> (b: bool)
        ensures
            b <==> gpu_step > self.steps_done(),
    {
        gpu_step > self.step
    }

    /// Takes the output of a finished step, read behind an acquire fence.
    pub fn take_output(&mut self, token: u32) -> (t: u32)
        requires
            old(self).steps_done() < u32::MAX,
        ensures
            t == token,
            final(self).last_token() == token,
            final(self).steps_done() == old(self).steps_done() + 1,
    {
        self.step = self.step + 1;
        self.last_output_token = token;
        token
    }

    /// Says how to stop the kernel: the flag, a fence, and a step that wakes
    /// the kernel so that it sees the flag.
    pub fn request_stop(&self) -> (ops: Vec<ProtoOp>)
        requires
            self.steps_done() < u32::MAX,
        ensures
            ops@ == seq![
                ProtoOp::WriteU32 { offset: OFFSET_STOP_FLAG, value: 1 },
                ProtoOp::FenceRelease,
                ProtoOp::WriteU32 {
                    offset: OFFSET_CPU_STEP,
                    value: (self.steps_done() + 1) as u32,
                },
            ],
    {
        vec![
            ProtoOp::WriteU32 { offset: OFFSET_STOP_FLAG, value: 1 },
            ProtoOp::FenceRelease,
            ProtoOp::WriteU32 { offset: OFFSET_CPU_STEP, value: self.step + 1 },
        ]
    }
}

// ---- Laws ----

/// The fields of the buffer: where each starts, and its bytes.
pub open spec fn protocol_fields() -> Seq<(int, int)> {
    seq![
        (OFFSET_CPU_STEP as int, 4),
        (OFFSET_GPU_STEP as int, 4),
        (OFFSET_STOP_FLAG as int, 4),
        (OFFSET_INPUT_IDS as int, 4 * N),
        (OFFSET_POSITIONS as int, 4 * N),
        (OFFSET_SEQ_LENS as int, 4 * N),
        (OFFSET_SLOT_MAPPING as int, 8 * N),
        (OFFSET_BLOCK_TABLE_STRIDE as int, 4),
        (OFFSET_BLOCK_TABLE as int, 4 * MAX_BLOCKS),
        (OFFSET_OUTPUT_TOKENS as int, 4 * N),
    ]
}

/// The fields come in order, do not overlap, are aligned to the width of their
/// entries, and fit into the buffer.
pub proof fn law_protocol_fields_are_disjoint(i: int, j: int)
    requires
        0 <= i < j < protocol_fields().len(),
    ensures
        protocol_fields()[i].0 + protocol_fields()[i].1 <= protocol_fields()[j].0,
        protocol_fields()[j].0 + protocol_fields()[j].1 <= PROTOCOL_BYTES,
        protocol_fields()[j].0 % 4 == 0,
        OFFSET_SLOT_MAPPING % 8 == 0,
{
}

/// The bytes that an action writes: from where, and how many.
pub open spec fn footprint(op: ProtoOp) -> (int, int) {
    match op {
        ProtoOp::WriteU32 { offset, .. } => (offset as int, 4),
        ProtoOp::WriteI32 { offset, .. } => (offset as int, 4),
        ProtoOp::WriteI64 { offset, .. } => (offset as int, 8),
        ProtoOp::FenceRelease => (0, 0),
    }
}

/// An action changes its footprint and nothing else.
proof fn lemma_applied_frame(buf: Seq<u8>, op: ProtoOp)
    ensures
        applied(buf, op).len() == buf.len(),
        forall|j: int|
            0 <= j < buf.len() && !(footprint(op).0 <= j < footprint(op).0 + footprint(op).1)
                ==> applied(buf, op)[j] == #[trigger] buf[j],
{
    match op {
        ProtoOp::WriteU32 { value, .. } => {
            lemma_le_bytes_len(value as nat, 4);
        },
        ProtoOp::WriteI32 { value, .. } => {
            lemma_le_bytes_len(bits_i32(value), 4);
        },
        ProtoOp::WriteI64 { value, .. } => {
            lemma_le_bytes_len(bits_i64(value), 8);
        },
        ProtoOp::FenceRelease => {},
    }
}

/// Actions change their footprints and nothing else.
pub proof fn law_writes_stay_in_place(buf: Seq<u8>, ops: Seq<ProtoOp>, j: int)
    requires
        0 <= j < buf.len(),
        forall|i: int|
            0 <= i < ops.len() ==> !(footprint(#[trigger] ops[i]).0 <= j < footprint(ops[i]).0
                + footprint(ops[i]).1),
    ensures
        applied_all(buf, ops).len() == buf.len(),
        applied_all(buf, ops)[j] == buf[j],
    decreases ops.len(),
{
    if ops.len() > 0 {
        let front = ops.drop_last();
        assert(forall|i: int| 0 <= i < front.len() ==> #[trigger] front[i] == ops[i]);
        law_writes_stay_in_place(buf, front, j);
        lemma_applied_frame(applied_all(buf, front), ops.last());
        assert(ops[ops.len() - 1] == ops.last());
        let mid = applied_all(buf, front);
        assert(applied(mid, ops.last())[j] == mid[j]);
    }
}

/// Actions in a row are the first ones followed by the others.
proof fn lemma_applied_concat(buf: Seq<u8>, a: Seq<ProtoOp>, b: Seq<ProtoOp>)
    ensures
        applied_all(buf, a + b) == applied_all(applied_all(buf, a), b),
    decreases b.len(),
{
    if b.len() == 0 {
        assert(a + b =~= a);
    } else {
        lemma_applied_concat(buf, a, b.drop_last());
        assert((a + b).drop_last() =~= a + b.drop_last());
    }
}

/// The table entries that were written read back, and nothing else changed.
proof fn lemma_table_written(buf: Seq<u8>, input: StepInput<'_>, n: int)
    requires
        buf.len() == PROTOCOL_BYTES,
        0 <= n <= MAX_BLOCKS,
    ensures
        applied_all(buf, table_ops(input, n)).len() == buf.len(),
        forall|i: int|
            0 <= i < n ==> #[trigger] applied_all(buf, table_ops(input, n)).subrange(
                OFFSET_BLOCK_TABLE + 4 * i,
                OFFSET_BLOCK_TABLE + 4 * i + 4,
            ) == le_bytes(table_entry(input, i) as nat, 4),
        forall|j: int|
            0 <= j < buf.len() && !(OFFSET_BLOCK_TABLE <= j < OFFSET_BLOCK_TABLE + 4 * n)
                ==> #[trigger] applied_all(buf, table_ops(input, n))[j] == buf[j],
    decreases n,
{
    let ops = table_ops(input, n);
    if n > 0 {
        lemma_table_written(buf, input, n - 1);
        let front = table_ops(input, n - 1);
        assert(ops.drop_last() =~= front);
        let mid = applied_all(buf, front);
        let last = ops.last();
        lemma_applied_frame(mid, last);
        lemma_le_bytes_len(table_entry(input, n - 1) as nat, 4);
        let now = applied(mid, last);
        assert(applied_all(buf, ops) == now);
        assert forall|i: int| 0 <= i < n implies #[trigger] now.subrange(
            OFFSET_BLOCK_TABLE + 4 * i,
            OFFSET_BLOCK_TABLE + 4 * i + 4,
        ) == le_bytes(table_entry(input, i) as nat, 4) by {
            if i == n - 1 {
                assert(now.subrange(
                    OFFSET_BLOCK_TABLE + 4 * i,
                    OFFSET_BLOCK_TABLE + 4 * i + 4,
                ) =~= le_bytes(table_entry(input, i) as nat, 4));
            } else {
                assert(now.subrange(
                    OFFSET_BLOCK_TABLE + 4 * i,
                    OFFSET_BLOCK_TABLE + 4 * i + 4,
                ) =~= mid.subrange(
                    OFFSET_BLOCK_TABLE + 4 * i,
                    OFFSET_BLOCK_TABLE + 4 * i + 4,
                ));
            }
        }
    }
}

/// The scalar fields after they were written.
proof fn lemma_scalars_written(buf: Seq<u8>, input: StepInput<'_>)
    requires
        buf.len() == PROTOCOL_BYTES,
    ensures
        ({
            let now = applied_all(buf, scalar_ops(input));
            &&& now.len() == buf.len()
            &&& now.subrange(64, 68) == le_bytes(input.input_id as nat, 4)
            &&& now.subrange(68, 72) == le_bytes(input.position as nat, 4)
            &&& now.subrange(72, 76) == le_bytes(bits_i32(input.seq_len), 4)
            &&& now.subrange(80, 88) == le_bytes(bits_i64(input.slot_mapping), 8)
            &&& now.subrange(88, 92) == le_bytes(input.block_table_stride as nat, 4)
            &&& forall|j: int|
                0 <= j < buf.len() && !(64 <= j < 76) && !(80 <= j < 92) ==> #[trigger] now[j]
                    == buf[j]
        }),
{
    let ops = scalar_ops(input);
    lemma_le_bytes_len(input.input_id as nat, 4);
    lemma_le_bytes_len(input.position as nat, 4);
    lemma_le_bytes_len(bits_i32(input.seq_len), 4);
    lemma_le_bytes_len(bits_i64(input.slot_mapping), 8);
    lemma_le_bytes_len(input.block_table_stride as nat, 4);
    let b1 = applied(buf, ops[0]);
    let b2 = applied(b1, ops[1]);
    let b3 = applied(b2, ops[2]);
    let b4 = applied(b3, ops[3]);
    let b5 = applied(b4, ops[4]);
    reveal_with_fuel(applied_all, 6);
    assert(ops.drop_last() =~= seq![ops[0], ops[1], ops[2], ops[3]]);
    assert(ops.drop_last().drop_last() =~= seq![ops[0], ops[1], ops[2]]);
    assert(ops.drop_last().drop_last().drop_last() =~= seq![ops[0], ops[1]]);
    assert(ops.drop_last().drop_last().drop_last().drop_last() =~= seq![ops[0]]);
    assert(ops.drop_last().drop_last().drop_last().drop_last().drop_last() =~= Seq::empty());
    assert(applied_all(buf, ops) == b5);
    assert(b5.subrange(64, 68) =~= le_bytes(input.input_id as nat, 4));
    assert(b5.subrange(68, 72) =~= le_bytes(input.position as nat, 4));
    assert(b5.subrange(72, 76) =~= le_bytes(bits_i32(input.seq_len), 4));
    assert(b5.subrange(80, 88) =~= le_bytes(bits_i64(input.slot_mapping), 8));
    assert(b5.subrange(88, 92) =~= le_bytes(input.block_table_stride as nat, 4));
}

/// Byte `j` of the buffer belongs to a field that is written for a step.
pub open spec fn in_step_input(input: StepInput<'_>, j: int) -> bool {
    ||| OFFSET_INPUT_IDS <= j < OFFSET_INPUT_IDS + 4
    ||| OFFSET_POSITIONS <= j < OFFSET_POSITIONS + 4
    ||| OFFSET_SEQ_LENS <= j < OFFSET_SEQ_LENS + 4
    ||| OFFSET_SLOT_MAPPING <= j < OFFSET_SLOT_MAPPING + 8
    ||| OFFSET_BLOCK_TABLE_STRIDE <= j < OFFSET_BLOCK_TABLE_STRIDE + 4
    ||| OFFSET_BLOCK_TABLE <= j < OFFSET_BLOCK_TABLE + 4 * entries_written(input)
}

/// What is written for a step is what the kernel reads: every input is in its
/// field, and table entries past the block ids are zero up to the stride. No
/// other byte changes: not the counters, the stop flag or the output token,
/// and not the gaps between fields.
pub proof fn law_step_input_reads_back(buf: Seq<u8>, input: StepInput<'_>)
    requires
        buf.len() == PROTOCOL_BYTES,
    ensures
        ({
            let now = applied_all(buf, step_input_ops(input));
            &&& now.len() == buf.len()
            &&& word(now, OFFSET_INPUT_IDS as int) == input.input_id
            &&& word(now, OFFSET_POSITIONS as int) == input.position
            &&& word(now, OFFSET_SEQ_LENS as int) == bits_i32(input.seq_len)
            &&& le_value(now.subrange(80, 88)) == bits_i64(input.slot_mapping)
            &&& word(now, OFFSET_BLOCK_TABLE_STRIDE as int) == input.block_table_stride
            &&& forall|i: int|
                0 <= i < entries_written(input) ==> #[trigger] word(
                    now,
                    OFFSET_BLOCK_TABLE + 4 * i,
                ) == table_entry(input, i)
            &&& forall|j: int|
                0 <= j < buf.len() && !in_step_input(input, j) ==> #[trigger] now[j] == buf[j]
        }),
{
    let n = entries_written(input);
    let mid = applied_all(buf, scalar_ops(input));
    let now = applied_all(buf, step_input_ops(input));
    lemma_scalars_written(buf, input);
    lemma_applied_concat(buf, scalar_ops(input), table_ops(input, n));
    lemma_table_written(mid, input, n);
    assert(now == applied_all(mid, table_ops(input, n)));
    assert(now.subrange(64, 68) =~= mid.subrange(64, 68));
    assert(now.subrange(68, 72) =~= mid.subrange(68, 72));
    assert(now.subrange(72, 76) =~= mid.subrange(72, 76));
    assert(now.subrange(80, 88) =~= mid.subrange(80, 88));
    assert(now.subrange(88, 92) =~= mid.subrange(88, 92));
    lemma_u32_round_trip(input.input_id);
    lemma_u32_round_trip(input.position);
    lemma_u32_round_trip(input.block_table_stride);
    lemma_u32_round_trip(bits_i32(input.seq_len) as u32);
    lemma_u64_round_trip(bits_i64(input.slot_mapping) as u64);
    assert forall|i: int| 0 <= i < n implies #[trigger] word(now, OFFSET_BLOCK_TABLE + 4 * i)
        == table_entry(input, i) by {
        lemma_u32_round_trip(table_entry(input, i));
        assert(now.subrange(
            OFFSET_BLOCK_TABLE + 4 * i,
            OFFSET_BLOCK_TABLE + 4 * i + 4,
        ) == le_bytes(table_entry(input, i) as nat, 4));
    }
    assert forall|j: int| 0 <= j < buf.len() && !in_step_input(input, j) implies #[trigger] now[j]
        == buf[j] by {
        assert(mid[j] == buf[j]);
    }
}

/// A negative sequence length or slot is read back as itself: its bits are
/// unambiguous.
pub proof fn law_bits_are_faithful(a: i32, b: i32, c: i64, d: i64)
    ensures
        bits_i32(a) == bits_i32(b) ==> a == b,
        bits_i64(c) == bits_i64(d) ==> c == d,
        bits_i32(a) < 0x1_0000_0000,
        bits_i64(c) < 0x1_0000_0000_0000_0000,
{
}

/// Releasing a step sets `cpu_step` and leaves the rest of the buffer alone;
/// stopping also sets the flag, and before it wakes the kernel.
pub proof fn law_release_and_stop(buf: Seq<u8>, step: u32)
    requires
        buf.len() == PROTOCOL_BYTES,
        step < u32::MAX,
    ensures
        ({
            let bump = ProtoOp::WriteU32 { offset: OFFSET_CPU_STEP, value: (step + 1) as u32 };
            let flag = ProtoOp::WriteU32 { offset: OFFSET_STOP_FLAG, value: 1 };
            let released = applied_all(buf, seq![ProtoOp::FenceRelease, bump]);
            let stopped = applied_all(buf, seq![flag, ProtoOp::FenceRelease, bump]);
            &&& released.len() == buf.len()
            &&& word(released, OFFSET_CPU_STEP as int) == step + 1
            &&& forall|j: int| 4 <= j < buf.len() ==> #[trigger] released[j] == buf[j]
            &&& stopped.len() == buf.len()
            &&& word(stopped, OFFSET_CPU_STEP as int) == step + 1
            &&& word(stopped, OFFSET_STOP_FLAG as int) == 1
            &&& forall|j: int|
                4 <= j < 8 || 12 <= j < buf.len() ==> #[trigger] stopped[j] == buf[j]
        }),
{
    let bump = ProtoOp::WriteU32 { offset: OFFSET_CPU_STEP, value: (step + 1) as u32 };
    let flag = ProtoOp::WriteU32 { offset: OFFSET_STOP_FLAG, value: 1 };
    let fence = ProtoOp::FenceRelease;
    reveal_with_fuel(applied_all, 4);
    assert(seq![fence, bump].drop_last() =~= seq![fence]);
    assert(seq![fence].drop_last() =~= Seq::empty());
    assert(seq![flag, fence, bump].drop_last() =~= seq![flag, fence]);
    assert(seq![flag, fence].drop_last() =~= seq![flag]);
    assert(seq![flag].drop_last() =~= Seq::empty());
    let released = applied_all(buf, seq![fence, bump]);
    let stopped = applied_all(buf, seq![flag, fence, bump]);
    assert(released == applied(buf, bump));
    assert(stopped == applied(applied(buf, flag), bump));
    lemma_u32_round_trip((step + 1) as u32);
    lemma_u32_round_trip(1);
    assert(released.subrange(0, 4) =~= le_bytes((step + 1) as nat, 4));
    assert(stopped.subrange(0, 4) =~= le_bytes((step + 1) as nat, 4));
    assert(stopped.subrange(8, 12) =~= le_bytes(1, 4));
}

/// Where host and kernel agreed to find each field.
pub proof fn law_protocol_offsets()
    ensures
        OFFSET_CPU_STEP == 0,
        OFFSET_GPU_STEP == 4,
        OFFSET_STOP_FLAG == 8,
        OFFSET_INPUT_IDS == 64,
        OFFSET_POSITIONS == 68,
        OFFSET_SEQ_LENS == 72,
        OFFSET_SLOT_MAPPING == 80,
        OFFSET_BLOCK_TABLE_STRIDE == 88,
        OFFSET_BLOCK_TABLE == 96,
        OFFSET_OUTPUT_TOKENS == 96 + 4 * 512,
        MAX_BLOCKS == 512,
        N == 1,
        PROTOCOL_BYTES == 4096,
{
}

/// The kernel reads the block ids of the sequence from the table, as many as
/// the table holds, and zeros behind them up to the stride.
pub proof fn law_block_table_reads_back(buf: Seq<u8>, input: StepInput<'_>, i: int)
    requires
        buf.len() == PROTOCOL_BYTES,
        0 <= i < 512,
    ensures
        ({
            let now = applied_all(buf, step_input_ops(input));
            &&& i < input.block_ids@.len() ==> word(now, 96 + 4 * i) == input.block_ids@[i]
            &&& input.block_ids@.len() <= i < input.block_table_stride ==> word(now, 96 + 4 * i)
                == 0
            &&& i >= input.block_ids@.len() && i >= input.block_table_stride ==> word(
                now,
                96 + 4 * i,
            ) == word(buf, 96 + 4 * i)
        }),
{
    law_step_input_reads_back(buf, input);
    let now = applied_all(buf, step_input_ops(input));
    if i >= input.block_ids@.len() && i >= input.block_table_stride {
        assert(now.subrange(96 + 4 * i, 96 + 4 * i + 4) =~= buf.subrange(
            96 + 4 * i,
            96 + 4 * i + 4,
        ));
    } else {
        assert(word(now, OFFSET_BLOCK_TABLE + 4 * i) == table_entry(input, i));
    }
}

} // verus!
