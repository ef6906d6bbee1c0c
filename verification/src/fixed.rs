//! The fixed-point number base shared by every module: a scale of one
//! million steps per unit, a bound on world coordinates, and division that
//! rounds toward zero.

use vstd::prelude::*;

verus! {

/// Fixed-point steps per whole unit: one step is a millionth of a radian
/// or of a world unit.
pub const SCALE: i64 = 1_000_000;

/// Largest coordinate magnitude, in fixed-point steps, that the geometry
/// accepts: one million world units either way from the origin.
pub const COORD_LIMIT: i64 = 1_000_000_000_000;

/// Absolute value of a mathematical integer.
pub open spec fn iabs(x: int) -> int {
    if x < 0 {
        -x
    } else {
        x
    }
}

/// The quotient `n / d` rounded toward zero, which is how the fixed-point
/// routines divide; defined as 0 for `d == 0`, a case no caller reaches.
pub open spec fn qdiv(n: int, d: int) -> int {
    if d == 0 {
        0
    } else {
        let q = iabs(n) / iabs(d);
        if (n < 0) != (d < 0) {
            -q
        } else {
            q
        }
    }
}

/// The magnitude of a product is the product of the magnitudes.
pub proof fn lemma_iabs_mul(a: int, b: int)
    ensures
        iabs(a * b) == iabs(a) * iabs(b),
{
    if a >= 0 && b >= 0 {
        vstd::arithmetic::mul::lemma_mul_nonnegative(a, b);
    } else if a < 0 && b >= 0 {
        vstd::arithmetic::mul::lemma_mul_nonnegative(-a, b);
        vstd::arithmetic::mul::lemma_mul_unary_negation(a, b);
    } else if a >= 0 && b < 0 {
        vstd::arithmetic::mul::lemma_mul_nonnegative(a, -b);
        vstd::arithmetic::mul::lemma_mul_unary_negation(a, b);
    } else {
        vstd::arithmetic::mul::lemma_mul_nonnegative(-a, -b);
        vstd::arithmetic::mul::lemma_mul_cancels_negatives(a, b);
    }
}

/// The magnitude of a rounded-toward-zero quotient never exceeds `bound`
/// when the numerator is at most `bound` times the divisor.
pub proof fn lemma_qdiv_bound(n: int, d: int, bound: int)
    requires
        d != 0,
        0 <= bound,
        iabs(n) <= bound * iabs(d),
    ensures
        iabs(qdiv(n, d)) <= bound,
{
    let an = iabs(n);
    let ad = iabs(d);
    vstd::arithmetic::div_mod::lemma_div_pos_is_pos(an, ad);
    vstd::arithmetic::div_mod::lemma_div_is_ordered(an, bound * ad, ad);
    vstd::arithmetic::mul::lemma_mul_is_commutative(bound, ad);
    vstd::arithmetic::div_mod::lemma_div_multiples_vanish(bound, ad);
}

/// Divide two fixed-point quantities, rounding toward zero.
pub(crate) fn qdiv128(n: i128, d: i128) -> (r: i128)
    requires
        d != 0,
        n != i128::MIN,
        d != i128::MIN,
    ensures
        r as int == qdiv(n as int, d as int),
{
    let an: i128 = if n < 0 {
        -n
    } else {
        n
    };
    let ad: i128 = if d < 0 {
        -d
    } else {
        d
    };
    proof {
        vstd::arithmetic::div_mod::lemma_div_pos_is_pos(an as int, ad as int);
        vstd::arithmetic::div_mod::lemma_div_nonincreasing(an as int, ad as int);
    }
    let q: i128 = an / ad;
    if (n < 0) != (d < 0) {
        -q
    } else {
        q
    }
}

} // verus!
