//! Signed decimal fixed-point arithmetic: every scalar of the view state is
//! an `i64` counting units of `1 / SCALE` (twelve decimal places).
//!
//! Multiplication and division truncate toward zero, and the spec functions
//! here state that truncation exactly, so every camera transition built on
//! them has a pinned-down result.

use vstd::prelude::*;

verus! {

use vstd::arithmetic::div_mod::{lemma_div_is_ordered, lemma_div_nonincreasing, lemma_div_pos_is_pos};

/// Number of fixed-point steps per unit: values carry twelve decimal places.
pub const SCALE: i64 = 1_000_000_000_000;

/// The largest magnitude an `i64` scalar may take here; symmetric so that
/// negation never overflows.
pub const FX_CAP: i64 = 9_223_372_036_854_775_807;

/// Truncated-toward-zero quotient, the rounding `/` performs on machine
/// integers (ghost `/` is Euclidean, hence the sign split).
pub open spec fn div_trunc_s(a: int, b: int) -> int
    recommends
        b > 0,
{
    if a >= 0 {
        a / b
    } else {
        -((-a) / b)
    }
}

/// Fixed-point product: the mathematical product scaled back down, truncated
/// toward zero.
pub open spec fn fx_mul_s(a: int, b: int) -> int {
    div_trunc_s(a * b, SCALE as int)
}

/// `v` forced into `[lo, hi]`.
pub open spec fn clamp_s(v: int, lo: int, hi: int) -> int {
    if v < lo {
        lo
    } else if v > hi {
        hi
    } else {
        v
    }
}

/// Interval bound for a plain product, by way of the operands' magnitudes.
pub proof fn lemma_mul_abs_bound(a: int, b: int, aa: int, bb: int)
    requires
        -aa <= a <= aa,
        -bb <= b <= bb,
    ensures
        -(aa * bb) <= a * b <= aa * bb,
{
    let pa = if a >= 0 { a } else { -a };
    let pb = if b >= 0 { b } else { -b };
    vstd::arithmetic::mul::lemma_mul_upper_bound(pa, aa, pb, bb);
    assert(pa * pb >= 0 && (a * b == pa * pb || a * b == -(pa * pb))) by (nonlinear_arith)
        requires
            (pa == a || pa == -a) && pa >= 0,
            (pb == b || pb == -b) && pb >= 0,
    ;
}

/// Interval bound for a fixed-point product: operand bounds carry over to
/// the truncated result.
pub proof fn lemma_fx_mul_bound(a: int, b: int, aa: int, bb: int)
    requires
        -aa <= a <= aa,
        -bb <= b <= bb,
    ensures
        -(aa * bb / (SCALE as int)) <= fx_mul_s(a, b) <= aa * bb / (SCALE as int),
{
    let p = a * b;
    lemma_mul_abs_bound(a, b, aa, bb);
    if p >= 0 {
        lemma_div_pos_is_pos(p, SCALE as int);
        lemma_div_is_ordered(p, aa * bb, SCALE as int);
        lemma_div_pos_is_pos(aa * bb, SCALE as int);
    } else {
        lemma_div_pos_is_pos(-p, SCALE as int);
        lemma_div_is_ordered(-p, aa * bb, SCALE as int);
        lemma_div_pos_is_pos(aa * bb, SCALE as int);
    }
}

/// Fixed-point multiply. The precondition asks only that the mathematical
/// result fit an `i64`; callers discharge it with `lemma_fx_mul_bound`.
pub fn fx_mul(a: i64, b: i64) -> (r: i64)
    requires
        -(FX_CAP as int) <= fx_mul_s(a as int, b as int) <= FX_CAP as int,
    ensures
        r == fx_mul_s(a as int, b as int),
{
    proof {
        lemma_mul_abs_bound(a as int, b as int, 0x8000000000000000, 0x8000000000000000);
    }
    let p: i128 = (a as i128) * (b as i128);
    if p >= 0 {
        let q: u128 = (p as u128) / (SCALE as u128);
        q as i64
    } else {
        let m: u128 = (-p) as u128;
        let q: u128 = m / (SCALE as u128);
        proof {
            lemma_div_pos_is_pos(m as int, SCALE as int);
        }
        -(q as i64)
    }
}

/// Truncated-toward-zero division by a positive divisor.
pub fn div_trunc(a: i64, b: i64) -> (r: i64)
    requires
        1 <= b,
        -(FX_CAP as int) <= a,
    ensures
        r == div_trunc_s(a as int, b as int),
{
    if a >= 0 {
        let q: u64 = (a as u64) / (b as u64);
        proof {
            lemma_div_pos_is_pos(a as int, b as int);
            lemma_div_nonincreasing(a as int, b as int);
        }
        q as i64
    } else {
        let m: u64 = (-a) as u64;
        let q: u64 = m / (b as u64);
        proof {
            lemma_div_pos_is_pos(m as int, b as int);
            lemma_div_nonincreasing(m as int, b as int);
        }
        -(q as i64)
    }
}

/// `v` forced into `[lo, hi]`.
pub fn clamp(v: i64, lo: i64, hi: i64) -> (r: i64)
    requires
        lo <= hi,
    ensures
        r == clamp_s(v as int, lo as int, hi as int),
{
    if v < lo {
        lo
    } else if v > hi {
        hi
    } else {
        v
    }
}

} // verus!
