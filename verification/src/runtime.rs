//! Host-visible runtime buffers and how a forward step fills them.
//!
//! A buffer is always written whole: the input first, then padding up to the
//! buffer's end, because kernels run over the bucket's full width. Padding is
//! zero, except in the slot mapping, where slot 0 is a real cache slot and
//! padding lanes hold `u32::MAX` so that the cache append skips them.
use crate::bytes::{
    le_bytes, le_words, lemma_fill_reads, lemma_u32_round_trip, lemma_words_read_back,
    push_u32_le, word_at,
};
use crate::forward::{ForwardError, ForwardInputs};
use vstd::prelude::*;

verus! {

/// Contents of the runtime buffers of one worker.
#[derive(Debug)]
pub struct RuntimeBindings {
    pub input_ids: Vec<u8>,
    pub positions: Vec<u8>,
    pub slot_mapping: Vec<u8>,
    pub cu_seqlens_q: Vec<u8>,
    pub seq_used_k: Vec<u8>,
    pub block_table: Vec<u8>,
    /// Four bytes: the number of tokens.
    pub num_tokens_u32: Vec<u8>,
    /// Four bytes: the number of sampled rows.
    pub num_sample_rows_u32: Vec<u8>,
    pub sample_indices: Vec<u8>,
}

/// What the runtime buffers hold.
pub struct RuntimeView {
    pub input_ids: Seq<u8>,
    pub positions: Seq<u8>,
    pub slot_mapping: Seq<u8>,
    pub cu_seqlens_q: Seq<u8>,
    pub seq_used_k: Seq<u8>,
    pub block_table: Seq<u8>,
    pub num_tokens_u32: Seq<u8>,
    pub num_sample_rows_u32: Seq<u8>,
    pub sample_indices: Seq<u8>,
}

impl View for RuntimeBindings {
    type V = RuntimeView;

    open spec fn view(&self) -> RuntimeView {
        RuntimeView {
            input_ids: self.input_ids@,
            positions: self.positions@,
            slot_mapping: self.slot_mapping@,
            cu_seqlens_q: self.cu_seqlens_q@,
            seq_used_k: self.seq_used_k@,
            block_table: self.block_table@,
            num_tokens_u32: self.num_tokens_u32@,
            num_sample_rows_u32: self.num_sample_rows_u32@,
            sample_indices: self.sample_indices@,
        }
    }
}

/// A buffer of `len` bytes that starts with `words` and is padded with `pad`.
pub open spec fn padded(words: Seq<u32>, len: nat, pad: u8) -> Seq<u8> {
    le_words(words) + Seq::new((len - 4 * words.len()) as nat, |i: int| pad)
}

/// The words fit into a buffer of `len` bytes.
pub open spec fn fits(words: Seq<u32>, len: nat) -> bool {
    4 * words.len() <= len
}

/// The error for words that do not fit.
pub open spec fn too_small(kind: &'static str, words: Seq<u32>, len: nat) -> ForwardError {
    ForwardError::BufferTooSmall {
        kind,
        bytes_needed: (4 * words.len()) as usize,
        bytes_available: len as usize,
    }
}

/// Checks that `src` fits into a buffer of `bytes_available` bytes.
fn check_fits(kind: &'static str, bytes_available: usize, src: &[u32]) -> (r: Result<
    (),
    ForwardError,
>)
    requires
        4 * src@.len() <= usize::MAX,
    ensures
        match r {
            Ok(()) => fits(src@, bytes_available as nat),
            Err(e) => !fits(src@, bytes_available as nat) && e == too_small(
                kind,
                src@,
                bytes_available as nat,
            ),
        },
{
    let bytes_needed: usize = src.len() * 4;
    if bytes_needed > bytes_available {
        return Err(ForwardError::BufferTooSmall { kind, bytes_needed, bytes_available });
    }
    Ok(())
}

/// Overwrites a buffer with `src` and padding.
fn fill(buffer: &mut Vec<u8>, src: &[u32], pad: u8)
    requires
        fits(src@, old(buffer)@.len()),
    ensures
        final(buffer)@ == padded(src@, old(buffer)@.len(), pad),
{
    let len: usize = buffer.len();
    let mut out: Vec<u8> = Vec::new();
    let mut i: usize = 0;
    while i < src.len()
        invariant
            i <= src@.len(),
            out@ == le_words(src@.take(i as int)),
        decreases src@.len() - i,
    {
        push_u32_le(&mut out, src[i]);
        assert(src@.take(i + 1).drop_last() =~= src@.take(i as int));
        i += 1;
    }
    proof {
        assert(src@.take(i as int) =~= src@);
        lemma_words_read_back(src@, Seq::empty());
    }
    let ghost words = out@;
    assert(out@ =~= words + Seq::new(0, |j: int| pad));
    while out.len() < len
        invariant
            words.len() <= out@.len() <= len,
            out@ == words + Seq::new((out@.len() - words.len()) as nat, |j: int| pad),
        decreases len - out@.len(),
    {
        out.push(pad);
        assert(out@ =~= words + Seq::new((out@.len() - words.len()) as nat, |j: int| pad));
    }
    *buffer = out;
}

/// Writes `src` into a buffer and clears the rest of it. An input that does
/// not fit is refused, and the buffer stays as it was.
pub fn write_slice(kind: &'static str, buffer: &mut Vec<u8>, src: &[u32]) -> (r: Result<
    (),
    ForwardError,
>)
    requires
        4 * src@.len() <= usize::MAX,
    ensures
        r is Ok <==> fits(src@, old(buffer)@.len()),
        r is Ok ==> final(buffer)@ == padded(src@, old(buffer)@.len(), 0),
        r matches Err(e) ==> e == too_small(kind, src@, old(buffer)@.len()) && final(buffer)@
            == old(buffer)@,
{
    let len: usize = buffer.len();
    match check_fits(kind, len, src) {
        Ok(()) => {
            fill(buffer, src, 0);
            Ok(())
        },
        Err(e) => Err(e),
    }
}

/// Writes the slot mapping and fills the rest of its buffer with `u32::MAX`.
/// A mapping that does not fit is refused, and the buffer stays as it was.
pub fn write_slot_mapping(buffer: &mut Vec<u8>, src: &[u32]) -> (r: Result<(), ForwardError>)
    requires
        4 * src@.len() <= usize::MAX,
    ensures
        r is Ok <==> fits(src@, old(buffer)@.len()),
        r is Ok ==> final(buffer)@ == padded(src@, old(buffer)@.len(), 255),
        r matches Err(e) ==> e == too_small("slot_mapping", src@, old(buffer)@.len())
            && final(buffer)@ == old(buffer)@,
{
    let len: usize = buffer.len();
    match check_fits("slot_mapping", len, src) {
        Ok(()) => {
            fill(buffer, src, 255);
            Ok(())
        },
        Err(e) => Err(e),
    }
}

/// A buffer whose first four bytes are overwritten with `x`.
pub open spec fn with_word(old: Seq<u8>, x: u32) -> Seq<u8> {
    le_bytes(x as nat, 4) + old.skip(4)
}

/// Overwrites the first four bytes of a buffer.
fn write_word(buffer: &mut Vec<u8>, x: u32)
    requires
        old(buffer)@.len() >= 4,
    ensures
        final(buffer)@ == with_word(old(buffer)@, x),
{
    let mut word: Vec<u8> = Vec::new();
    push_u32_le(&mut word, x);
    proof {
        lemma_u32_round_trip(x);
        assert(word@ =~= le_bytes(x as nat, 4));
    }
    let mut i: usize = 0;
    while i < 4
        invariant
            i <= 4,
            word@.len() == 4,
            buffer@.len() == old(buffer)@.len(),
            buffer@.len() >= 4,
            forall|j: int| 0 <= j < i ==> buffer@[j] == word@[j],
            forall|j: int| i <= j < buffer@.len() ==> buffer@[j] == old(buffer)@[j],
        decreases 4 - i,
    {
        buffer.set(i, word[i]);
        i += 1;
    }
    assert(buffer@ =~= with_word(old(buffer)@, x));
}

/// An optional input is absent or fits.
pub open spec fn opt_fits(s: Option<&[u32]>, len: nat) -> bool {
    match s {
        Some(s) => fits(s@, len),
        None => true,
    }
}

/// A buffer after an optional input was written to it.
pub open spec fn opt_written(s: Option<&[u32]>, old: Seq<u8>, pad: u8) -> Seq<u8> {
    match s {
        Some(s) => padded(s@, old.len(), pad),
        None => old,
    }
}

/// The first input that does not fit, in the order of the buffers.
pub open spec fn first_misfit(r: RuntimeView, inputs: ForwardInputs<'_>) -> Option<ForwardError> {
    if !fits(inputs.input_ids@, r.input_ids.len()) {
        Some(too_small("input_ids", inputs.input_ids@, r.input_ids.len()))
    } else if !fits(inputs.positions@, r.positions.len()) {
        Some(too_small("positions", inputs.positions@, r.positions.len()))
    } else if !opt_fits(inputs.slot_mapping, r.slot_mapping.len()) {
        Some(too_small("slot_mapping", inputs.slot_mapping->0@, r.slot_mapping.len()))
    } else if !opt_fits(inputs.cu_seqlens_q, r.cu_seqlens_q.len()) {
        Some(too_small("cu_seqlens_q", inputs.cu_seqlens_q->0@, r.cu_seqlens_q.len()))
    } else if !opt_fits(inputs.seq_used_k, r.seq_used_k.len()) {
        Some(too_small("seq_used_k", inputs.seq_used_k->0@, r.seq_used_k.len()))
    } else if !opt_fits(inputs.block_table, r.block_table.len()) {
        Some(too_small("block_table", inputs.block_table->0@, r.block_table.len()))
    } else if !opt_fits(inputs.last_token_indices, r.sample_indices.len()) {
        Some(
            too_small(
                "last_token_indices",
                inputs.last_token_indices->0@,
                r.sample_indices.len(),
            ),
        )
    } else {
        None
    }
}

/// The number of sampled rows of a step; 0 where none are named.
pub open spec fn sample_rows(inputs: ForwardInputs<'_>) -> u32 {
    match inputs.last_token_indices {
        Some(s) => s@.len() as u32,
        None => 0,
    }
}

/// The runtime buffers after a step's inputs were written.
pub open spec fn written(r: RuntimeView, inputs: ForwardInputs<'_>) -> RuntimeView {
    RuntimeView {
        input_ids: padded(inputs.input_ids@, r.input_ids.len(), 0),
        positions: padded(inputs.positions@, r.positions.len(), 0),
        slot_mapping: opt_written(inputs.slot_mapping, r.slot_mapping, 255),
        cu_seqlens_q: opt_written(inputs.cu_seqlens_q, r.cu_seqlens_q, 0),
        seq_used_k: opt_written(inputs.seq_used_k, r.seq_used_k, 0),
        block_table: opt_written(inputs.block_table, r.block_table, 0),
        num_tokens_u32: with_word(r.num_tokens_u32, inputs.num_tokens),
        num_sample_rows_u32: with_word(r.num_sample_rows_u32, sample_rows(inputs)),
        sample_indices: opt_written(inputs.last_token_indices, r.sample_indices, 0),
    }
}

/// A buffer of `len` bytes holds `words`: word `i` of it is word `i` of the
/// input, and every whole word behind them is `pad`.
pub open spec fn holds_words(buffer: Seq<u8>, words: Seq<u32>, len: nat, pad: u32) -> bool {
    &&& buffer.len() == len
    &&& forall|i: int| 0 <= i < words.len() ==> #[trigger] word_at(buffer, i) == words[i]
    &&& forall|i: int| words.len() <= i && 4 * i + 4 <= len ==> #[trigger] word_at(buffer, i) == pad
}

/// A buffer holds an input that is given, and is left alone if none is.
pub open spec fn given_words(
    input: Option<&[u32]>,
    before: Seq<u8>,
    after: Seq<u8>,
    pad: u32,
) -> bool {
    match input {
        Some(words) => holds_words(after, words@, before.len(), pad),
        None => after == before,
    }
}

/// The byte counts of all inputs fit in a machine word.
pub open spec fn sizes_fit(inputs: ForwardInputs<'_>) -> bool {
    &&& 4 * inputs.input_ids@.len() <= usize::MAX
    &&& 4 * inputs.positions@.len() <= usize::MAX
    &&& inputs.slot_mapping matches Some(s) ==> 4 * s@.len() <= usize::MAX
    &&& inputs.cu_seqlens_q matches Some(s) ==> 4 * s@.len() <= usize::MAX
    &&& inputs.seq_used_k matches Some(s) ==> 4 * s@.len() <= usize::MAX
    &&& inputs.block_table matches Some(s) ==> 4 * s@.len() <= usize::MAX
    &&& inputs.last_token_indices matches Some(s) ==> 4 * s@.len() <= usize::MAX
}

/// Checks an optional input.
fn check_opt(kind: &'static str, bytes_available: usize, src: Option<&[u32]>) -> (r: Result<
    (),
    ForwardError,
>)
    requires
        src matches Some(s) ==> 4 * s@.len() <= usize::MAX,
    ensures
        match r {
            Ok(()) => opt_fits(src, bytes_available as nat),
            Err(e) => !opt_fits(src, bytes_available as nat) && e == too_small(
                kind,
                src->0@,
                bytes_available as nat,
            ),
        },
{
    match src {
        Some(s) => check_fits(kind, bytes_available, s),
        None => Ok(()),
    }
}

/// Checks every input against its buffer.
fn check_inputs(runtime: &RuntimeBindings, inputs: &ForwardInputs<'_>) -> (r: Result<
    (),
    ForwardError,
>)
    requires
        sizes_fit(*inputs),
    ensures
        match r {
            Ok(()) => first_misfit(runtime@, *inputs) is None,
            Err(e) => first_misfit(runtime@, *inputs) == Some(e),
        },
{
    if let Err(e) = check_fits("input_ids", runtime.input_ids.len(), inputs.input_ids) {
        return Err(e);
    }
    if let Err(e) = check_fits("positions", runtime.positions.len(), inputs.positions) {
        return Err(e);
    }
    if let Err(e) = check_opt("slot_mapping", runtime.slot_mapping.len(), inputs.slot_mapping) {
        return Err(e);
    }
    if let Err(e) = check_opt("cu_seqlens_q", runtime.cu_seqlens_q.len(), inputs.cu_seqlens_q) {
        return Err(e);
    }
    if let Err(e) = check_opt("seq_used_k", runtime.seq_used_k.len(), inputs.seq_used_k) {
        return Err(e);
    }
    if let Err(e) = check_opt("block_table", runtime.block_table.len(), inputs.block_table) {
        return Err(e);
    }
    check_opt("last_token_indices", runtime.sample_indices.len(), inputs.last_token_indices)
}

/// Writes every input of a step into its buffer. All inputs are checked first:
/// where one does not fit, the first such is reported and no buffer is
/// touched.
pub fn write_runtime_inputs(runtime: &mut RuntimeBindings, inputs: &ForwardInputs<'_>) -> (r:
    Result<(), ForwardError>)
    requires
        sizes_fit(*inputs),
        old(runtime).num_tokens_u32@.len() >= 4,
        old(runtime).num_sample_rows_u32@.len() >= 4,
    ensures
        match first_misfit(old(runtime)@, *inputs) {
            Some(e) => r == Err::<(), ForwardError>(e) && final(runtime)@ == old(runtime)@,
            None => r is Ok && final(runtime)@ == written(old(runtime)@, *inputs),
        },
        r is Ok ==> {
            &&& holds_words(
                final(runtime).input_ids@,
                inputs.input_ids@,
                old(runtime).input_ids@.len(),
                0,
            )
            &&& holds_words(
                final(runtime).positions@,
                inputs.positions@,
                old(runtime).positions@.len(),
                0,
            )
            &&& given_words(
                inputs.slot_mapping,
                old(runtime).slot_mapping@,
                final(runtime).slot_mapping@,
                u32::MAX,
            )
            &&& given_words(
                inputs.cu_seqlens_q,
                old(runtime).cu_seqlens_q@,
                final(runtime).cu_seqlens_q@,
                0,
            )
            &&& given_words(
                inputs.seq_used_k,
                old(runtime).seq_used_k@,
                final(runtime).seq_used_k@,
                0,
            )
            &&& given_words(
                inputs.block_table,
                old(runtime).block_table@,
                final(runtime).block_table@,
                0,
            )
            &&& given_words(
                inputs.last_token_indices,
                old(runtime).sample_indices@,
                final(runtime).sample_indices@,
                0,
            )
            &&& word_at(final(runtime).num_tokens_u32@, 0) == inputs.num_tokens
        },
{
    if let Err(e) = check_inputs(runtime, inputs) {
        return Err(e);
    }
    fill(&mut runtime.input_ids, inputs.input_ids, 0);
    fill(&mut runtime.positions, inputs.positions, 0);
    if let Some(s) = inputs.slot_mapping {
        fill(&mut runtime.slot_mapping, s, 255);
    }
    if let Some(s) = inputs.cu_seqlens_q {
        fill(&mut runtime.cu_seqlens_q, s, 0);
    }
    if let Some(s) = inputs.seq_used_k {
        fill(&mut runtime.seq_used_k, s, 0);
    }
    if let Some(s) = inputs.block_table {
        fill(&mut runtime.block_table, s, 0);
    }
    write_word(&mut runtime.num_tokens_u32, inputs.num_tokens);
    let rows: u32 = match inputs.last_token_indices {
        Some(s) => {
            let len: usize = s.len();
            #[verifier::truncate]
            (len as u32)
        },
        None => 0,
    };
    write_word(&mut runtime.num_sample_rows_u32, rows);
    if let Some(s) = inputs.last_token_indices {
        fill(&mut runtime.sample_indices, s, 0);
    }
    proof {
        law_inputs_land_in_their_buffers(old(runtime)@, *inputs);
        law_counts_read_back(old(runtime)@, *inputs);
    }
    Ok(())
}

/// What was written into a buffer reads back: word `i` is the input's word
/// `i`, and every whole word behind the input is padding, which is 0 in a
/// zero-padded buffer and `u32::MAX` in a slot mapping.
pub proof fn law_written_words_read_back(words: Seq<u32>, len: nat, pad: u8)
    requires
        fits(words, len),
    ensures
        padded(words, len, pad).len() == len,
        forall|i: int|
            0 <= i < words.len() ==> #[trigger] word_at(padded(words, len, pad), i) == words[i],
        forall|i: int|
            words.len() <= i && 4 * i + 4 <= len ==> {
                &&& pad == 0 ==> #[trigger] word_at(padded(words, len, pad), i) == 0
                &&& pad == 255 ==> word_at(padded(words, len, pad), i) == u32::MAX
            },
{
    let tail = Seq::new((len - 4 * words.len()) as nat, |i: int| pad);
    lemma_words_read_back(words, tail);
    assert forall|i: int| words.len() <= i && 4 * i + 4 <= len implies {
        &&& pad == 0 ==> #[trigger] word_at(padded(words, len, pad), i) == 0
        &&& pad == 255 ==> word_at(padded(words, len, pad), i) == u32::MAX
    } by {
        assert(padded(words, len, pad).subrange(4 * i, 4 * i + 4) =~= seq![pad, pad, pad, pad]);
        lemma_fill_reads(pad);
    }
}

/// A step that is refused changes nothing, and a step that is accepted can be
/// followed by any step of the same shape: writing never changes the size of
/// a buffer.
pub proof fn law_buffer_sizes_never_change(r: RuntimeView, inputs: ForwardInputs<'_>)
    requires
        first_misfit(r, inputs) is None,
        r.num_tokens_u32.len() >= 4,
        r.num_sample_rows_u32.len() >= 4,
    ensures
        written(r, inputs).input_ids.len() == r.input_ids.len(),
        written(r, inputs).positions.len() == r.positions.len(),
        written(r, inputs).slot_mapping.len() == r.slot_mapping.len(),
        written(r, inputs).cu_seqlens_q.len() == r.cu_seqlens_q.len(),
        written(r, inputs).seq_used_k.len() == r.seq_used_k.len(),
        written(r, inputs).block_table.len() == r.block_table.len(),
        written(r, inputs).num_tokens_u32.len() == r.num_tokens_u32.len(),
        written(r, inputs).num_sample_rows_u32.len() == r.num_sample_rows_u32.len(),
        written(r, inputs).sample_indices.len() == r.sample_indices.len(),
{
    law_written_words_read_back(inputs.input_ids@, r.input_ids.len(), 0);
    law_written_words_read_back(inputs.positions@, r.positions.len(), 0);
    if let Some(s) = inputs.slot_mapping {
        law_written_words_read_back(s@, r.slot_mapping.len(), 255);
    }
    if let Some(s) = inputs.cu_seqlens_q {
        law_written_words_read_back(s@, r.cu_seqlens_q.len(), 0);
    }
    if let Some(s) = inputs.seq_used_k {
        law_written_words_read_back(s@, r.seq_used_k.len(), 0);
    }
    if let Some(s) = inputs.block_table {
        law_written_words_read_back(s@, r.block_table.len(), 0);
    }
    if let Some(s) = inputs.last_token_indices {
        law_written_words_read_back(s@, r.sample_indices.len(), 0);
    }
    lemma_u32_round_trip(inputs.num_tokens);
    lemma_u32_round_trip(sample_rows(inputs));
}

/// The number of tokens and the number of sampled rows read back from their
/// buffers.
pub proof fn law_counts_read_back(r: RuntimeView, inputs: ForwardInputs<'_>)
    requires
        r.num_tokens_u32.len() >= 4,
        r.num_sample_rows_u32.len() >= 4,
    ensures
        word_at(written(r, inputs).num_tokens_u32, 0) == inputs.num_tokens,
        word_at(written(r, inputs).num_sample_rows_u32, 0) == sample_rows(inputs),
{
    lemma_u32_round_trip(inputs.num_tokens);
    lemma_u32_round_trip(sample_rows(inputs));
    let w = written(r, inputs);
    assert(w.num_tokens_u32.subrange(0, 4) =~= le_bytes(inputs.num_tokens as nat, 4));
    assert(w.num_sample_rows_u32.subrange(0, 4) =~= le_bytes(sample_rows(inputs) as nat, 4));
}

/// Writing a second step forgets the first: only inputs that the second step
/// leaves out keep what the first one wrote.
pub proof fn law_last_write_wins(
    r: RuntimeView,
    first: ForwardInputs<'_>,
    second: ForwardInputs<'_>,
)
    requires
        first_misfit(r, first) is None,
        first_misfit(r, second) is None,
        r.num_tokens_u32.len() >= 4,
        r.num_sample_rows_u32.len() >= 4,
        first.slot_mapping is Some ==> second.slot_mapping is Some,
        first.cu_seqlens_q is Some ==> second.cu_seqlens_q is Some,
        first.seq_used_k is Some ==> second.seq_used_k is Some,
        first.block_table is Some ==> second.block_table is Some,
        first.last_token_indices is Some ==> second.last_token_indices is Some,
    ensures
        written(written(r, first), second) == written(r, second),
{
    law_buffer_sizes_never_change(r, first);
    lemma_u32_round_trip(first.num_tokens);
    lemma_u32_round_trip(sample_rows(first));
    let a = written(r, first);
    assert(a.num_tokens_u32.skip(4) =~= r.num_tokens_u32.skip(4));
    assert(a.num_sample_rows_u32.skip(4) =~= r.num_sample_rows_u32.skip(4));
}

/// After an accepted step, every array that the step gives stands in its own
/// buffer, word for word, with padding behind it that is zero, and `u32::MAX`
/// in the slot mapping; the buffer of an array that is not given is left
/// alone.
pub proof fn law_inputs_land_in_their_buffers(r: RuntimeView, inputs: ForwardInputs<'_>)
    requires
        first_misfit(r, inputs) is None,
    ensures
        ({
            let w = written(r, inputs);
            &&& holds_words(w.input_ids, inputs.input_ids@, r.input_ids.len(), 0)
            &&& holds_words(w.positions, inputs.positions@, r.positions.len(), 0)
            &&& given_words(inputs.slot_mapping, r.slot_mapping, w.slot_mapping, u32::MAX)
            &&& given_words(inputs.cu_seqlens_q, r.cu_seqlens_q, w.cu_seqlens_q, 0)
            &&& given_words(inputs.seq_used_k, r.seq_used_k, w.seq_used_k, 0)
            &&& given_words(inputs.block_table, r.block_table, w.block_table, 0)
            &&& given_words(inputs.last_token_indices, r.sample_indices, w.sample_indices, 0)
        }),
{
    law_written_words_read_back(inputs.input_ids@, r.input_ids.len(), 0);
    law_written_words_read_back(inputs.positions@, r.positions.len(), 0);
    if let Some(s) = inputs.slot_mapping {
        law_written_words_read_back(s@, r.slot_mapping.len(), 255);
    }
    if let Some(s) = inputs.cu_seqlens_q {
        law_written_words_read_back(s@, r.cu_seqlens_q.len(), 0);
    }
    if let Some(s) = inputs.seq_used_k {
        law_written_words_read_back(s@, r.seq_used_k.len(), 0);
    }
    if let Some(s) = inputs.block_table {
        law_written_words_read_back(s@, r.block_table.len(), 0);
    }
    if let Some(s) = inputs.last_token_indices {
        law_written_words_read_back(s@, r.sample_indices.len(), 0);
    }
}

/// The number of sampled rows is how many are named, and none where none are;
/// only the four bytes of a count are written.
pub proof fn law_counts_are_those_of_the_step(r: RuntimeView, inputs: ForwardInputs<'_>, j: int)
    requires
        r.num_tokens_u32.len() >= 4,
        r.num_sample_rows_u32.len() >= 4,
        4 <= j,
    ensures
        ({
            let w = written(r, inputs);
            &&& word_at(w.num_tokens_u32, 0) == inputs.num_tokens
            &&& inputs.last_token_indices is None ==> word_at(w.num_sample_rows_u32, 0) == 0
            &&& inputs.last_token_indices matches Some(s) ==> (s@.len() <= u32::MAX ==> word_at(
                w.num_sample_rows_u32,
                0,
            ) == s@.len())
            &&& j < r.num_tokens_u32.len() ==> w.num_tokens_u32[j] == r.num_tokens_u32[j]
            &&& j < r.num_sample_rows_u32.len() ==> w.num_sample_rows_u32[j]
                == r.num_sample_rows_u32[j]
        }),
{
    law_counts_read_back(r, inputs);
    lemma_u32_round_trip(inputs.num_tokens);
    lemma_u32_round_trip(sample_rows(inputs));
}

/// The bytes of an optional input.
pub open spec fn opt_bytes(s: Option<&[u32]>) -> int {
    match s {
        Some(s) => 4 * s@.len() as int,
        None => 0,
    }
}

/// A step is refused exactly if an array takes more bytes than its own buffer
/// has, and the error gives the name and both sizes of the first such.
pub proof fn law_refusal_names_the_first_misfit(r: RuntimeView, inputs: ForwardInputs<'_>)
    ensures
        ({
            let needed = seq![
                4 * inputs.input_ids@.len() as int,
                4 * inputs.positions@.len() as int,
                opt_bytes(inputs.slot_mapping),
                opt_bytes(inputs.cu_seqlens_q),
                opt_bytes(inputs.seq_used_k),
                opt_bytes(inputs.block_table),
                opt_bytes(inputs.last_token_indices),
            ];
            let available = seq![
                r.input_ids.len() as int,
                r.positions.len() as int,
                r.slot_mapping.len() as int,
                r.cu_seqlens_q.len() as int,
                r.seq_used_k.len() as int,
                r.block_table.len() as int,
                r.sample_indices.len() as int,
            ];
            let names = seq![
                "input_ids",
                "positions",
                "slot_mapping",
                "cu_seqlens_q",
                "seq_used_k",
                "block_table",
                "last_token_indices",
            ];
            match first_misfit(r, inputs) {
                None => forall|i: int| 0 <= i < 7 ==> needed[i] <= #[trigger] available[i],
                Some(e) => exists|i: int|
                    0 <= i < 7 && needed[i] > #[trigger] available[i] && e == (
                    ForwardError::BufferTooSmall {
                        kind: names[i],
                        bytes_needed: needed[i] as usize,
                        bytes_available: available[i] as usize,
                    }) && forall|j: int| 0 <= j < i ==> needed[j] <= #[trigger] available[j],
            }
        }),
{
    let available = seq![
        r.input_ids.len() as int,
        r.positions.len() as int,
        r.slot_mapping.len() as int,
        r.cu_seqlens_q.len() as int,
        r.seq_used_k.len() as int,
        r.block_table.len() as int,
        r.sample_indices.len() as int,
    ];
    let first = if !fits(inputs.input_ids@, r.input_ids.len()) {
        0int
    } else if !fits(inputs.positions@, r.positions.len()) {
        1
    } else if !opt_fits(inputs.slot_mapping, r.slot_mapping.len()) {
        2
    } else if !opt_fits(inputs.cu_seqlens_q, r.cu_seqlens_q.len()) {
        3
    } else if !opt_fits(inputs.seq_used_k, r.seq_used_k.len()) {
        4
    } else if !opt_fits(inputs.block_table, r.block_table.len()) {
        5
    } else {
        6
    };
    assert(available[first] == available[first]);
}

/// The error for an input that does not fit gives the buffer's name, the bytes
/// of the input and those of the buffer.
pub proof fn law_misfits_are_measured(kind: &'static str, words: Seq<u32>, len: nat)
    requires
        !fits(words, len),
        4 * words.len() <= usize::MAX,
    ensures
        too_small(kind, words, len) matches ForwardError::BufferTooSmall {
            kind: k,
            bytes_needed,
            bytes_available,
        } && k == kind && bytes_needed == 4 * words.len() && bytes_available == len
            && bytes_needed > bytes_available,
{
}

} // verus!
