//! Signed 16.16 fixed-point arithmetic and the tuning constants of the game.
//!
//! A fixed-point value stores a real quantity scaled by `FX_ONE` (65536), so
//! one world unit is 65536 steps of an `i64`.  Angles use their own unit: a
//! full circle is `ANGLE_FULL` (1 << 20), which makes a half and a quarter
//! turn exact.

use vstd::prelude::*;

verus! {

use vstd::arithmetic::div_mod::lemma_fundamental_div_mod;
use vstd::arithmetic::div_mod::lemma_fundamental_div_mod_converse_div;

/// One whole unit in 16.16 fixed point.
pub const FX_ONE: i64 = 65536;

/// Length of one physics tick, 1/60 s, in fixed point.
pub const TICK_FX: i64 = 1092;

/// Downward gravity, 40 world units per second squared, in fixed point.
pub const GRAVITY_FX: i64 = 2621440;

/// Thrust acceleration, 120 world units per second squared, in fixed point.
pub const THRUST_FX: i64 = 7864320;

/// Velocity kept over one tick: 0.6^(1/60) in fixed point, so the continuous
/// damping loses 40% of the velocity over each full second.
pub const DAMPING_TICK_FX: i64 = 64980;

/// Seconds a dead ship waits before the game-over prompt, 1.5 s in fixed point.
pub const DEAD_TIMEOUT_FX: i64 = 98304;

/// Height of the camera's visible world window, 300 world units in fixed point.
pub const VISIBLE_HEIGHT_FX: i64 = 19660800;

/// A full circle in angle units (1 << 20).
pub const ANGLE_FULL: i64 = 1048576;

/// Half a circle in angle units.
pub const ANGLE_HALF: i64 = 524288;

/// A quarter circle in angle units; the ship spawns pointing straight up.
pub const ANGLE_QUARTER: i64 = 262144;

/// Turn rate while a turn control is held: 2.5 radians per second,
/// converted to angle units per second.
pub const TURN_SPEED_ANGLE: i64 = 417215;

/// Bound on every coordinate that takes part in a geometric containment
/// test (1 << 29 in fixed point, about 8192 world units): products of
/// coordinate differences then stay well inside an `i64`.
pub const COORD_LIMIT_FX: i64 = 536870912;

/// Bound kept on each velocity component, in fixed point (512 world units
/// per second).  Damping dominates gravity and thrust well before this
/// speed, so one tick never drives a bounded velocity past it.
pub const V_MAX_FX: i64 = 33554432;

/// Bound kept on each position component, in fixed point (about 16.7
/// million world units).  The integrator saturates positions here; the
/// playable level is smaller by four orders of magnitude.
pub const P_MAX_FX: i64 = 1099511627776;

/// Floor division, rounded toward negative infinity: the mathematical
/// `/` on `int` for a positive divisor.
pub fn div_floor(n: i64, d: i64) -> (q: i64)
    requires
        0 < d,
        i64::MIN + d <= n,
    ensures
        q == n as int / d as int,
{
    if n >= 0 {
        n / d
    } else {
        let m = -n;
        let t = (m + (d - 1)) / d;
        proof {
            lemma_fundamental_div_mod(m + (d - 1), d as int);
            vstd::arithmetic::div_mod::lemma_mod_pos_bound((m + (d - 1)) as int, d as int);
            let td = t as int;
            let r = (m + (d - 1)) as int % (d as int);
            // m + d - 1 == t*d + r with 0 <= r < d, hence n == (-t)*d + (d - 1 - r).
            assert((-td) * (d as int) == -((d as int) * td)) by (nonlinear_arith);
            lemma_fundamental_div_mod_converse_div(n as int, d as int, -td, d - 1 - r);
        }
        -t
    }
}

/// `n` modulo `d` for a positive `d`, with a result in `[0, d)`:
/// the mathematical `%` on `int`.
pub fn mod_floor(n: i64, d: i64) -> (r: i64)
    requires
        0 < d,
        i64::MIN + d <= n,
        n <= i64::MAX - d,
    ensures
        r == n as int % d as int,
        0 <= r < d,
{
    let q = div_floor(n, d);
    proof {
        lemma_fundamental_div_mod(n as int, d as int);
        vstd::arithmetic::div_mod::lemma_mod_bound(n as int, d as int);
    }
    n - q * d
}

/// Division truncated toward zero, as the machine division of signed
/// integers behaves, written over the mathematical `/` on `int`.
pub open spec fn div_trunc(p: int, d: int) -> int {
    if p >= 0 {
        p / d
    } else {
        -((-p) / d)
    }
}

/// The product of two fixed-point values: `(a * b) / FX_ONE`, rounded
/// toward zero.
pub open spec fn fx_mul_spec(a: int, b: int) -> int {
    div_trunc(a * b, FX_ONE as int)
}

/// Multiplies two fixed-point values, rounding toward zero.  The result
/// never grows past the raw product, which bounds it on both sides.
pub fn fx_mul(a: i64, b: i64) -> (r: i64)
    requires
        -0x4000_0000_0000_0000 <= a * b <= 0x4000_0000_0000_0000,
    ensures
        r == fx_mul_spec(a as int, b as int),
        a * b >= 0 ==> 0 <= r <= a * b,
        a * b < 0 ==> a * b <= r <= 0,
{
    let p = a * b;
    proof {
        if p >= 0 {
            vstd::arithmetic::div_mod::lemma_div_pos_is_pos(p as int, FX_ONE as int);
            vstd::arithmetic::div_mod::lemma_div_nonincreasing(p as int, FX_ONE as int);
        } else {
            vstd::arithmetic::div_mod::lemma_div_pos_is_pos(-p as int, FX_ONE as int);
            vstd::arithmetic::div_mod::lemma_div_nonincreasing(-p as int, FX_ONE as int);
        }
    }
    p / FX_ONE
}

/// `v` forced into `[lo, hi]`.
pub open spec fn clamp_spec(v: int, lo: int, hi: int) -> int {
    if v < lo {
        lo
    } else if v > hi {
        hi
    } else {
        v
    }
}

/// Forces `v` into `[lo, hi]`.
pub fn clamp(v: i64, lo: i64, hi: i64) -> (r: i64)
    requires
        lo <= hi,
    ensures
        r == clamp_spec(v as int, lo as int, hi as int),
        lo <= r <= hi,
{
    if v < lo {
        lo
    } else if v > hi {
        hi
    } else {
        v
    }
}

/// Brings an angle into `[0, ANGLE_FULL)`; the result is the input modulo a
/// full circle.
pub fn wrap_angle(a: i64) -> (r: i64)
    requires
        -0x4000_0000_0000_0000 <= a <= 0x4000_0000_0000_0000,
    ensures
        r == a as int % (ANGLE_FULL as int),
        0 <= r < ANGLE_FULL,
{
    mod_floor(a, ANGLE_FULL)
}

} // verus!
