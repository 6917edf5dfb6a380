//! Sine and cosine over the game's angle units.
//!
//! An angle is an `i64` in `[0, ANGLE_FULL)`, where `ANGLE_FULL` is a full
//! circle.  The results are fixed-point values in `[-FX_ONE, FX_ONE]`.
//! On `[0, ANGLE_HALF]` the sine is the rational approximation
//! `16 q / (5 H^2 - 4 q)` with `q = x (H - x)` and `H = ANGLE_HALF`, which
//! is exact at every multiple of a quarter turn; the second half circle is
//! its mirror image.  The approximation is this crate's fixed definition of
//! the ship's heading vector, so every caller sees one deterministic value.

use vstd::prelude::*;

verus! {

use crate::fixed::ANGLE_FULL;
use crate::fixed::ANGLE_HALF;
use crate::fixed::ANGLE_QUARTER;
use crate::fixed::FX_ONE;

/// The sine over the first half circle, as a fixed-point value.
pub open spec fn sin_half_spec(x: int) -> int {
    let q = x * (ANGLE_HALF - x);
    (16 * q * FX_ONE) / (5 * (ANGLE_HALF as int) * (ANGLE_HALF as int) - 4 * q)
}

/// The sine of an angle in `[0, ANGLE_FULL)`, as a fixed-point value.
pub open spec fn sin_spec(a: int) -> int {
    if a < ANGLE_HALF {
        sin_half_spec(a)
    } else {
        -sin_half_spec(a - ANGLE_HALF)
    }
}

/// The cosine of an angle in `[0, ANGLE_FULL)`, as a fixed-point value.
pub open spec fn cos_spec(a: int) -> int {
    sin_spec((a + ANGLE_QUARTER) % (ANGLE_FULL as int))
}

/// The arch `q = x (H - x)` stays within `[0, H^2 / 4]` on `[0, H]`.
proof fn lemma_arch_bounds(x: int)
    requires
        0 <= x <= ANGLE_HALF,
    ensures
        0 <= x * (ANGLE_HALF - x),
        x * (ANGLE_HALF - x) <= (ANGLE_HALF as int) * (ANGLE_HALF as int) / 4,
{
    let h = ANGLE_HALF as int;
    assert(0 <= x * (h - x) && x * (h - x) <= h * h / 4) by (nonlinear_arith)
        requires
            0 <= x <= h,
            h == ANGLE_HALF,
    ;
}

fn sin_half(x: i64) -> (r: i64)
    requires
        0 <= x <= ANGLE_HALF,
    ensures
        r == sin_half_spec(x as int),
        0 <= r <= FX_ONE,
{
    proof {
        lemma_arch_bounds(x as int);
    }
    let q = x * (ANGLE_HALF - x);
    let num = 16 * q * FX_ONE;
    let den = 5 * ANGLE_HALF * ANGLE_HALF - 4 * q;
    let r = num / den;
    proof {
        // num <= FX_ONE * den since 20 q <= 5 H^2, so the quotient is at most FX_ONE.
        vstd::arithmetic::div_mod::lemma_div_is_ordered(num as int, (FX_ONE as int) * (den as int), den as int);
        vstd::arithmetic::div_mod::lemma_div_multiples_vanish(FX_ONE as int, den as int);
        vstd::arithmetic::div_mod::lemma_div_pos_is_pos(num as int, den as int);
    }
    r
}

/// The sine of an angle, as a fixed-point value in `[-FX_ONE, FX_ONE]`.
pub fn sin_fx(a: i64) -> (r: i64)
    requires
        0 <= a < ANGLE_FULL,
    ensures
        r == sin_spec(a as int),
        -FX_ONE <= r <= FX_ONE,
{
    if a < ANGLE_HALF {
        sin_half(a)
    } else {
        -sin_half(a - ANGLE_HALF)
    }
}

/// The cosine of an angle, as a fixed-point value in `[-FX_ONE, FX_ONE]`.
pub fn cos_fx(a: i64) -> (r: i64)
    requires
        0 <= a < ANGLE_FULL,
    ensures
        r == cos_spec(a as int),
        -FX_ONE <= r <= FX_ONE,
{
    let b = if a + ANGLE_QUARTER >= ANGLE_FULL {
        a + ANGLE_QUARTER - ANGLE_FULL
    } else {
        a + ANGLE_QUARTER
    };
    proof {
        let v = a as int + ANGLE_QUARTER;
        if v >= ANGLE_FULL {
            vstd::arithmetic::div_mod::lemma_mod_multiples_vanish(1, v - ANGLE_FULL, ANGLE_FULL as int);
            vstd::arithmetic::div_mod::lemma_small_mod((v - ANGLE_FULL) as nat, ANGLE_FULL as nat);
        } else {
            vstd::arithmetic::div_mod::lemma_small_mod(v as nat, ANGLE_FULL as nat);
        }
    }
    sin_fx(b)
}

/// The sine and cosine take their exact values at the four quarter turns.
pub proof fn lemma_trig_cardinal_values()
    ensures
        sin_spec(0) == 0,
        sin_spec(ANGLE_QUARTER as int) == FX_ONE,
        sin_spec(ANGLE_HALF as int) == 0,
        sin_spec((ANGLE_HALF + ANGLE_QUARTER) as int) == -FX_ONE,
        cos_spec(0) == FX_ONE,
        cos_spec(ANGLE_QUARTER as int) == 0,
        cos_spec(ANGLE_HALF as int) == -FX_ONE,
        cos_spec((ANGLE_HALF + ANGLE_QUARTER) as int) == 0,
{
    let h = ANGLE_HALF as int;
    let q = ANGLE_QUARTER as int;
    let f = ANGLE_FULL as int;
    assert(q * (h - q) == 68719476736) by (nonlinear_arith)
        requires
            q == 262144,
            h == 524288,
    ;
    assert(sin_half_spec(0) == 0);
    assert(5 * h * h == 1374389534720) by (nonlinear_arith)
        requires
            h == 524288,
    ;
    assert(72057594037927936int == 65536int * 1099511627776int) by (nonlinear_arith);
    vstd::arithmetic::div_mod::lemma_div_multiples_vanish(65536, 1099511627776);
    assert(sin_half_spec(q) == FX_ONE);
    vstd::arithmetic::div_mod::lemma_small_mod((0 + q) as nat, f as nat);
    vstd::arithmetic::div_mod::lemma_small_mod((q + q) as nat, f as nat);
    vstd::arithmetic::div_mod::lemma_small_mod((h + q) as nat, f as nat);
    vstd::arithmetic::div_mod::lemma_mod_multiples_vanish(1, 0, f);
    vstd::arithmetic::div_mod::lemma_small_mod(0nat, f as nat);
}

} // verus!
