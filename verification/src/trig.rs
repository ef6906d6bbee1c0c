//! Fixed-point sine and cosine.
//!
//! Sine on the half wave `[0, π]` uses Bhaskara's rational approximation,
//! which this scale makes exact at 0, π/2 and π — the anchors the rest of
//! the crate relies on.  The full wave follows by odd symmetry, and cosine
//! is sine advanced a quarter turn.

use vstd::prelude::*;
use crate::angle::{
    HALF_PI_FP, PI_FP, lemma_norm_add, lemma_norm_in_range, norm_spec, normalize,
};
use crate::fixed::{SCALE, iabs, qdiv};

verus! {

/// Sine of `x` on the half wave `0 <= x <= π`, in fixed-point steps:
/// Bhaskara's formula `16·x·(π-x) / (5·π² - 4·x·(π-x))`, scaled.
pub open spec fn sin_half_spec(x: int) -> int {
    let a = x * (PI_FP - x);
    qdiv(16 * a * SCALE, 5 * PI_FP * PI_FP - 4 * a)
}

/// Sine of a canonical angle in `(-π, π]`, by odd symmetry of the half wave.
pub open spec fn sin_canon_spec(x: int) -> int {
    if x >= 0 {
        sin_half_spec(x)
    } else {
        -sin_half_spec(-x)
    }
}

/// Fixed-point sine of an arbitrary angle.
pub open spec fn sin_spec(x: int) -> int {
    sin_canon_spec(norm_spec(x))
}

/// Fixed-point cosine of an arbitrary angle: sine a quarter turn ahead.
pub open spec fn cos_spec(x: int) -> int {
    sin_spec(x + HALF_PI_FP)
}

/// The parabola `x·(2h - x)` stays between 0 and `h²` for `x` in `[0, 2h]`.
proof fn lemma_parabola_bound(x: int, h: int)
    requires
        0 <= x <= 2 * h,
    ensures
        0 <= x * (2 * h - x) <= h * h,
{
    assert(0 <= x * (2 * h - x) <= h * h) by (nonlinear_arith)
        requires
            0 <= x <= 2 * h,
    ;
}

/// The half-wave sine stays within `[0, SCALE]`, one fixed-point unit.
pub proof fn lemma_sin_half_bounds(x: int)
    requires
        0 <= x <= PI_FP,
    ensures
        0 <= sin_half_spec(x) <= SCALE,
{
    let a = x * (PI_FP - x);
    lemma_parabola_bound(x, HALF_PI_FP as int);
    let num = 16 * a * SCALE;
    let den = 5 * PI_FP * PI_FP - 4 * a;
    assert(sin_half_spec(x) == num / den);
    vstd::arithmetic::div_mod::lemma_div_pos_is_pos(num, den);
    vstd::arithmetic::div_mod::lemma_div_is_ordered(num, SCALE * den, den);
    vstd::arithmetic::div_mod::lemma_div_multiples_vanish(SCALE as int, den);
}

/// Sine of any angle stays within one fixed-point unit.
pub proof fn lemma_sin_bounds(x: int)
    ensures
        iabs(sin_spec(x)) <= SCALE,
{
    lemma_norm_in_range(x);
    let n = norm_spec(x);
    if n >= 0 {
        lemma_sin_half_bounds(n);
    } else {
        lemma_sin_half_bounds(-n);
    }
}

/// Cosine of any angle stays within one fixed-point unit.
pub proof fn lemma_cos_bounds(x: int)
    ensures
        iabs(cos_spec(x)) <= SCALE,
{
    lemma_sin_bounds(x + HALF_PI_FP);
}

/// Sine on the half wave `[0, π]`.
fn sin_half(x: i64) -> (r: i64)
    requires
        0 <= x <= PI_FP,
    ensures
        r as int == sin_half_spec(x as int),
        0 <= r <= SCALE,
{
    proof {
        lemma_parabola_bound(x as int, HALF_PI_FP as int);
        lemma_sin_half_bounds(x as int);
    }
    let a: i128 = (x as i128) * ((PI_FP - x) as i128);
    let num: i128 = 16 * a * (SCALE as i128);
    let den: i128 = 5 * (PI_FP as i128) * (PI_FP as i128) - 4 * a;
    proof {
        vstd::arithmetic::div_mod::lemma_div_pos_is_pos(num as int, den as int);
        vstd::arithmetic::div_mod::lemma_div_is_ordered(num as int, SCALE * (den as int), den as int);
        vstd::arithmetic::div_mod::lemma_div_multiples_vanish(SCALE as int, den as int);
    }
    let q: i128 = num / den;
    q as i64
}

/// Fixed-point sine; the result is at most one unit in magnitude.
pub fn sin_fp(x: i64) -> (r: i64)
    ensures
        r as int == sin_spec(x as int),
        -SCALE <= r <= SCALE,
{
    let n: i64 = normalize(x);
    if n >= 0 {
        sin_half(n)
    } else {
        let v: i64 = sin_half(-n);
        -v
    }
}

/// Fixed-point cosine; the result is at most one unit in magnitude.
pub fn cos_fp(x: i64) -> (r: i64)
    ensures
        r as int == cos_spec(x as int),
        -SCALE <= r <= SCALE,
{
    let n: i64 = normalize(x);
    let r: i64 = sin_fp(n + HALF_PI_FP);
    proof {
        lemma_norm_add(x as int, HALF_PI_FP as int);
    }
    r
}

} // verus!
