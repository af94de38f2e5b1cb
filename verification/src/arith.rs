//! Integer helpers that the dispatch-grid and scratch-size formulas share.
use vstd::prelude::*;

verus! {

/// Smallest `q` with `q * b >= a`, for a positive `b`.
pub open spec fn ceil_div(a: int, b: int) -> int {
    (a + b - 1) / b
}

/// The product of two `u32`s, capped at `u32::MAX`.
pub open spec fn capped_product(a: int, b: int) -> int {
    if a * b > u32::MAX {
        u32::MAX as int
    } else {
        a * b
    }
}

/// `a / b` rounded up.
pub fn div_ceil_u32(a: u32, b: u32) -> (q: u32)
    requires
        b > 0,
    ensures
        q == ceil_div(a as int, b as int),
{
    let q: u32 = a / b;
    let r: u32 = a % b;
    proof {
        lemma_ceil_div_split(a as int, b as int);
    }
    if r > 0 {
        q + 1
    } else {
        q
    }
}

/// `a * b`, capped at `u32::MAX`.
pub fn saturating_mul_u32(a: u32, b: u32) -> (p: u32)
    ensures
        p == capped_product(a as int, b as int),
{
    match a.checked_mul(b) {
        Some(p) => p,
        None => u32::MAX,
    }
}

/// The larger of two numbers.
pub fn max_u32(a: u32, b: u32) -> (m: u32)
    ensures
        m == if a >= b { a } else { b },
{
    if a >= b {
        a
    } else {
        b
    }
}

/// Rounding up is the quotient, plus one exactly when there is a remainder.
proof fn lemma_ceil_div_split(a: int, b: int)
    requires
        a >= 0,
        b > 0,
    ensures
        ceil_div(a, b) == a / b + if a % b > 0 {
            1int
        } else {
            0int
        },
        a % b > 0 ==> a / b < a,
{
    vstd::arithmetic::div_mod::lemma_fundamental_div_mod(a, b);
    let q = a / b;
    let r = a % b;
    if r > 0 {
        assert(a + b - 1 == (q + 1) * b + (r - 1)) by (nonlinear_arith)
            requires
                a == b * q + r,
        ;
        vstd::arithmetic::div_mod::lemma_fundamental_div_mod_converse(
            a + b - 1,
            b,
            q + 1,
            r - 1,
        );
        assert(q < a) by (nonlinear_arith)
            requires
                a == b * q + r,
                r > 0,
                b > 0,
                r < b,
                q >= 0,
        ;
    } else {
        assert(a + b - 1 == q * b + (b - 1)) by (nonlinear_arith)
            requires
                a == b * q + r,
                r == 0,
        ;
        vstd::arithmetic::div_mod::lemma_fundamental_div_mod_converse(a + b - 1, b, q, b - 1);
    }
}

/// A grid of `ceil_div(a, b)` groups of `b` covers `a` items, and no smaller
/// grid does.
pub proof fn lemma_ceil_div_covers(a: int, b: int)
    requires
        a >= 0,
        b > 0,
    ensures
        ceil_div(a, b) * b >= a,
        forall|q: int| #![trigger q * b] q * b >= a ==> q >= ceil_div(a, b),
{
    let c = ceil_div(a, b);
    vstd::arithmetic::div_mod::lemma_fundamental_div_mod(a + b - 1, b);
    assert(c * b >= a) by (nonlinear_arith)
        requires
            a + b - 1 == b * c + (a + b - 1) % b,
            0 <= (a + b - 1) % b < b,
    ;
    assert forall|q: int| #![trigger q * b] q * b >= a implies q >= c by {
        assert(q >= c) by (nonlinear_arith)
            requires
                a + b - 1 == b * c + (a + b - 1) % b,
                0 <= (a + b - 1) % b < b,
                q * b >= a,
                b > 0,
        ;
    }
}

} // verus!
