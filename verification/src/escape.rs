//! The escape-time recurrence `z <- z^2 + c` in fixed point: the membership
//! test the shaders run per pixel, expressed as host logic so the library
//! can state it exactly and render its own raster (the window icon).

use vstd::prelude::*;

verus! {

use crate::fixed::{SCALE, fx_mul, fx_mul_s, lemma_fx_mul_bound};
use vstd::arithmetic::div_mod::{
    lemma_div_is_ordered, lemma_div_multiples_vanish, lemma_div_pos_is_pos,
    lemma_fundamental_div_mod, lemma_mod_division_less_than_divisor,
};

/// A point escapes once `|z|^2` exceeds 4.0 (escape radius 2.0).
pub const ESCAPE_RADIUS_SQ: i64 = 4_000_000_000_000;

/// The iteration accepts plane coordinates up to 3.0 in magnitude; the
/// Mandelbrot set lives well inside that square.
pub const COORD_LIMIT: i64 = 3_000_000_000_000;

/// Loop bound on the iterate's components: one squaring step from a
/// non-escaped `z` plus a coordinate stays within 8.0.
pub const Z_LIMIT: i64 = 8_000_000_000_000;

/// The number of `z <- z^2 + c` steps, starting from `(zx, zy)`, before
/// `|z|^2` exceeds the escape radius; `fuel` caps the count, so a result
/// equal to `fuel` means "did not escape within the budget".
pub open spec fn escape_count_s(zx: int, zy: int, cx: int, cy: int, fuel: nat) -> nat
    decreases fuel,
{
    if fuel == 0 {
        0
    } else if fx_mul_s(zx, zx) + fx_mul_s(zy, zy) > ESCAPE_RADIUS_SQ as int {
        0
    } else {
        1 + escape_count_s(
            fx_mul_s(zx, zx) - fx_mul_s(zy, zy) + cx,
            2 * fx_mul_s(zx, zy) + cy,
            cx,
            cy,
            (fuel - 1) as nat,
        )
    }
}

/// A fixed-point square is never negative.
proof fn lemma_fx_square_nonneg(a: int)
    ensures
        0 <= fx_mul_s(a, a),
{
    assert(0 <= a * a) by (nonlinear_arith);
    lemma_div_pos_is_pos(a * a, SCALE as int);
}

/// While `|z|^2` is at or below the escape radius, the cross term
/// `zx * zy` (scaled) stays within `2.0 + one step`: arithmetic-geometric
/// mean bound, carried through the truncating division.
proof fn lemma_cross_term_bound(zx: int, zy: int)
    requires
        fx_mul_s(zx, zx) + fx_mul_s(zy, zy) <= ESCAPE_RADIUS_SQ as int,
    ensures
        -(2 * (SCALE as int) + 1) <= fx_mul_s(zx, zy) <= 2 * (SCALE as int) + 1,
{
    let s = SCALE as int;
    let px = zx * zx;
    let py = zy * zy;
    let pxy = zx * zy;
    lemma_fx_square_nonneg(zx);
    lemma_fx_square_nonneg(zy);
    assert(0 <= zx * zx && 0 <= zy * zy && 2 * (zx * zy) <= zx * zx + zy * zy && -(zx * zx + zy
        * zy) <= 2 * (zx * zy)) by (nonlinear_arith);
    lemma_fundamental_div_mod(px, s);
    lemma_fundamental_div_mod(py, s);
    lemma_mod_division_less_than_divisor(px, s);
    lemma_mod_division_less_than_divisor(py, s);
    let qx = px / s;
    let qy = py / s;
    assert(px < s * qx + s && py < s * qy + s);
    assert(s * qx + s * qy <= s * (ESCAPE_RADIUS_SQ as int)) by (nonlinear_arith)
        requires
            qx + qy <= ESCAPE_RADIUS_SQ as int,
            s == SCALE as int,
    ;
    let cap = 2 * s + 1;
    assert(px + py <= s * (ESCAPE_RADIUS_SQ as int) + 2 * s);
    assert(s * (ESCAPE_RADIUS_SQ as int) + 2 * s == 2 * (s * cap)) by (nonlinear_arith)
        requires
            s == SCALE as int,
            cap == 2 * s + 1,
    ;
    assert(-(s * cap) <= pxy <= s * cap);
    if pxy >= 0 {
        lemma_div_is_ordered(pxy, s * cap, s);
        lemma_div_multiples_vanish(cap, s);
        lemma_div_pos_is_pos(pxy, s);
    } else {
        lemma_div_is_ordered(-pxy, s * cap, s);
        lemma_div_multiples_vanish(cap, s);
        lemma_div_pos_is_pos(-pxy, s);
    }
}

/// Run the escape-time iteration from `z = 0` for at most `max_iter`
/// steps; returns exactly `escape_count_s`.
pub fn escape_iterations(cx: i64, cy: i64, max_iter: u32) -> (n: u32)
    requires
        -COORD_LIMIT <= cx <= COORD_LIMIT,
        -COORD_LIMIT <= cy <= COORD_LIMIT,
    ensures
        n == escape_count_s(0, 0, cx as int, cy as int, max_iter as nat),
        n <= max_iter,
{
    let mut zx: i64 = 0;
    let mut zy: i64 = 0;
    let mut i: u32 = 0;
    while i < max_iter
        invariant
            0 <= i <= max_iter,
            -Z_LIMIT <= zx <= Z_LIMIT,
            -Z_LIMIT <= zy <= Z_LIMIT,
            -COORD_LIMIT <= cx <= COORD_LIMIT,
            -COORD_LIMIT <= cy <= COORD_LIMIT,
            escape_count_s(0, 0, cx as int, cy as int, max_iter as nat) == i + escape_count_s(
                zx as int,
                zy as int,
                cx as int,
                cy as int,
                (max_iter - i) as nat,
            ),
        decreases max_iter - i,
    {
        proof {
            lemma_fx_mul_bound(zx as int, zx as int, Z_LIMIT as int, Z_LIMIT as int);
            lemma_fx_mul_bound(zy as int, zy as int, Z_LIMIT as int, Z_LIMIT as int);
            lemma_fx_mul_bound(zx as int, zy as int, Z_LIMIT as int, Z_LIMIT as int);
            lemma_fx_square_nonneg(zx as int);
            lemma_fx_square_nonneg(zy as int);
        }
        let xx: i64 = fx_mul(zx, zx);
        let yy: i64 = fx_mul(zy, zy);
        if xx + yy > ESCAPE_RADIUS_SQ {
            return i;
        }
        proof {
            lemma_cross_term_bound(zx as int, zy as int);
        }
        let xy: i64 = fx_mul(zx, zy);
        let nzx: i64 = xx - yy + cx;
        let nzy: i64 = 2 * xy + cy;
        zx = nzx;
        zy = nzy;
        i = i + 1;
    }
    i
}

} // verus!
