//! Little-endian integers in byte buffers.
use vstd::arithmetic::power::pow;
use vstd::prelude::*;

verus! {

/// The `n` low-order bytes of `x`, lowest first.
pub open spec fn le_bytes(x: nat, n: nat) -> Seq<u8>
    decreases n,
{
    if n == 0 {
        Seq::empty()
    } else {
        seq![(x % 256) as u8] + le_bytes(x / 256, (n - 1) as nat)
    }
}

/// The number that bytes stand for, lowest first.
pub open spec fn le_value(s: Seq<u8>) -> nat
    decreases s.len(),
{
    if s.len() == 0 {
        0
    } else {
        s[0] as nat + 256 * le_value(s.skip(1))
    }
}

/// Consecutive 32-bit words, each lowest byte first.
pub open spec fn le_words(s: Seq<u32>) -> Seq<u8>
    decreases s.len(),
{
    if s.len() == 0 {
        Seq::empty()
    } else {
        le_words(s.drop_last()) + le_bytes(s.last() as nat, 4)
    }
}

/// The 32-bit word at byte `4 * i`.
pub open spec fn word_at(bytes: Seq<u8>, i: int) -> nat {
    le_value(bytes.subrange(4 * i, 4 * i + 4))
}

/// `n` bytes are written, and they read back as the number, if it fits.
pub proof fn lemma_le_round_trip(x: nat, n: nat)
    requires
        x < pow(256, n),
    ensures
        le_bytes(x, n).len() == n,
        le_value(le_bytes(x, n)) == x,
    decreases n,
{
    reveal(pow);
    if n > 0 {
        assert(x / 256 < pow(256, (n - 1) as nat)) by (nonlinear_arith)
            requires
                x < 256 * pow(256, (n - 1) as nat),
        ;
        lemma_le_round_trip(x / 256, (n - 1) as nat);
        let rest = le_bytes(x / 256, (n - 1) as nat);
        assert((seq![(x % 256) as u8] + rest).skip(1) =~= rest);
    }
}

/// The number of bytes does not depend on the number.
pub proof fn lemma_le_bytes_len(x: nat, n: nat)
    ensures
        le_bytes(x, n).len() == n,
    decreases n,
{
    if n > 0 {
        lemma_le_bytes_len(x / 256, (n - 1) as nat);
    }
}

/// A `u32` reads back from its four bytes.
pub proof fn lemma_u32_round_trip(x: u32)
    ensures
        le_bytes(x as nat, 4).len() == 4,
        le_value(le_bytes(x as nat, 4)) == x,
{
    reveal_with_fuel(pow, 5);
    lemma_le_round_trip(x as nat, 4);
}

/// A `u64` reads back from its eight bytes.
pub proof fn lemma_u64_round_trip(x: u64)
    ensures
        le_bytes(x as nat, 8).len() == 8,
        le_value(le_bytes(x as nat, 8)) == x,
{
    reveal_with_fuel(pow, 9);
    lemma_le_round_trip(x as nat, 8);
}

/// Words take four bytes each, and word `i` reads back from its place,
/// whatever follows.
pub proof fn lemma_words_read_back(s: Seq<u32>, after: Seq<u8>)
    ensures
        le_words(s).len() == 4 * s.len(),
        forall|i: int|
            0 <= i < s.len() ==> #[trigger] word_at(le_words(s) + after, i) == s[i],
    decreases s.len(),
{
    if s.len() > 0 {
        let front = s.drop_last();
        let last = le_bytes(s.last() as nat, 4);
        lemma_u32_round_trip(s.last());
        lemma_words_read_back(front, last + after);
        assert(le_words(s) + after =~= le_words(front) + (last + after));
        assert forall|i: int| 0 <= i < s.len() implies #[trigger] word_at(
            le_words(s) + after,
            i,
        ) == s[i] by {
            if i < front.len() {
                assert(word_at(le_words(front) + (last + after), i) == front[i]);
            } else {
                assert((le_words(s) + after).subrange(4 * i, 4 * i + 4) =~= last);
            }
        }
    }
}

/// Four equal bytes read as that byte in every place.
pub proof fn lemma_fill_reads(b: u8)
    ensures
        le_value(seq![b, b, b, b]) == b + 256 * b + 65536 * b + 16777216 * b,
{
    let s = seq![b, b, b, b];
    reveal_with_fuel(le_value, 5);
    assert(s.skip(1) =~= seq![b, b, b]);
    assert(s.skip(1).skip(1) =~= seq![b, b]);
    assert(s.skip(1).skip(1).skip(1) =~= seq![b]);
    assert(s.skip(1).skip(1).skip(1).skip(1) =~= Seq::empty());
}

/// Appends a word, lowest byte first.
pub fn push_u32_le(v: &mut Vec<u8>, x: u32)
    ensures
        final(v)@ == old(v)@ + le_bytes(x as nat, 4),
{
    proof {
        reveal_with_fuel(le_bytes, 5);
    }
    v.push((x % 256) as u8);
    v.push(((x / 256) % 256) as u8);
    v.push(((x / 65536) % 256) as u8);
    v.push(((x / 16777216) % 256) as u8);
    proof {
        let n = x as nat;
        assert(n / 256 / 256 == n / 65536);
        assert(n / 256 / 256 / 256 == n / 16777216);
        assert(v@ =~= old(v)@ + le_bytes(n, 4));
    }
}

/// Appends eight bytes, lowest first.
pub fn push_u64_le(v: &mut Vec<u8>, x: u64)
    ensures
        final(v)@ == old(v)@ + le_bytes(x as nat, 8),
{
    let mut rest: u64 = x;
    let mut i: usize = 0;
    let ghost start = v@;
    while i < 8
        invariant
            i <= 8,
            start + le_bytes(x as nat, 8) == v@ + le_bytes(rest as nat, (8 - i) as nat),
        decreases 8 - i,
    {
        let ghost before = v@;
        let ghost tail = le_bytes((rest / 256) as nat, (8 - i - 1) as nat);
        assert(le_bytes(rest as nat, (8 - i) as nat) == seq![(rest % 256) as u8] + tail);
        v.push((rest % 256) as u8);
        assert(before + (seq![(rest % 256) as u8] + tail) =~= v@ + tail);
        rest = rest / 256;
        i += 1;
    }
    assert(v@ + le_bytes(rest as nat, 0) =~= v@);
}

/// Consecutive 64-bit words, each lowest byte first.
pub open spec fn le_longs(s: Seq<u64>) -> Seq<u8>
    decreases s.len(),
{
    if s.len() == 0 {
        Seq::empty()
    } else {
        le_longs(s.drop_last()) + le_bytes(s.last() as nat, 8)
    }
}

/// The bytes of 64-bit words, each lowest byte first.
pub fn u64_le_bytes(v: &[u64]) -> (out: Vec<u8>)
    ensures
        out@ == le_longs(v@),
        out@.len() == 8 * v@.len(),
{
    let mut out: Vec<u8> = Vec::new();
    let mut i: usize = 0;
    while i < v.len()
        invariant
            i <= v@.len(),
            out@ == le_longs(v@.take(i as int)),
        decreases v@.len() - i,
    {
        push_u64_le(&mut out, v[i]);
        assert(v@.take(i + 1).drop_last() =~= v@.take(i as int));
        i += 1;
    }
    proof {
        assert(v@.take(i as int) =~= v@);
        lemma_longs_read_back(v@, Seq::empty());
    }
    out
}

/// 64-bit words take eight bytes each, and word `i` reads back from its place,
/// whatever follows.
pub proof fn lemma_longs_read_back(s: Seq<u64>, after: Seq<u8>)
    ensures
        le_longs(s).len() == 8 * s.len(),
        forall|i: int|
            0 <= i < s.len() ==> le_value(
                (le_longs(s) + after).subrange(8 * i, 8 * i + 8),
            ) == #[trigger] s[i],
    decreases s.len(),
{
    if s.len() > 0 {
        let front = s.drop_last();
        let last = le_bytes(s.last() as nat, 8);
        lemma_u64_round_trip(s.last());
        lemma_longs_read_back(front, last + after);
        assert(le_longs(s) + after =~= le_longs(front) + (last + after));
        assert forall|i: int| 0 <= i < s.len() implies le_value(
            (le_longs(s) + after).subrange(8 * i, 8 * i + 8),
        ) == #[trigger] s[i] by {
            if i < front.len() {
                assert(front[i] == s[i]);
            } else {
                assert((le_longs(s) + after).subrange(8 * i, 8 * i + 8) =~= last);
            }
        }
    }
}

/// The lowest byte of a word comes first, both where it is written and where it
/// is read.
pub proof fn law_lowest_byte_first(x: u32, a: u8, b: u8, c: u8, d: u8)
    ensures
        le_bytes(x as nat, 4).len() == 4,
        le_bytes(x as nat, 4)[0] == x % 256,
        le_bytes(x as nat, 4)[1] == x / 256 % 256,
        le_bytes(x as nat, 4)[2] == x / 65536 % 256,
        le_bytes(x as nat, 4)[3] == x / 16777216,
        le_value(seq![a, b, c, d]) == a + 256 * b + 65536 * c + 16777216 * d,
{
    let n = x as nat;
    reveal_with_fuel(le_bytes, 5);
    assert(n / 256 / 256 == n / 65536);
    assert(n / 256 / 256 / 256 == n / 16777216);
    let s = seq![a, b, c, d];
    reveal_with_fuel(le_value, 5);
    assert(s.skip(1) =~= seq![b, c, d]);
    assert(s.skip(1).skip(1) =~= seq![c, d]);
    assert(s.skip(1).skip(1).skip(1) =~= seq![d]);
    assert(s.skip(1).skip(1).skip(1).skip(1) =~= Seq::empty());
}

} // verus!
