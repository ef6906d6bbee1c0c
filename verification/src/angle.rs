//! Angles in fixed-point radians, and normalization into the canonical
//! half-open turn `(-π, π]`.
//!
//! Normalization is the heart of drag tracking: the difference of two
//! angles must be folded into `(-π, π]` before it is applied, or a drag
//! that crosses the ±π seam would snap the camera to the far side of the
//! circle instead of continuing smoothly.

use vstd::prelude::*;

verus! {

/// One eighth of a turn, π/4 radians, in fixed-point steps.
pub const QUARTER_PI_FP: i64 = 785_398;

/// One quarter of a turn, π/2 radians, in fixed-point steps.
pub const HALF_PI_FP: i64 = 2 * QUARTER_PI_FP;

/// One half turn, π radians, in fixed-point steps.
pub const PI_FP: i64 = 4 * QUARTER_PI_FP;

/// One full turn, 2π radians, in fixed-point steps.
pub const TAU_FP: i64 = 8 * QUARTER_PI_FP;

/// An angle is canonical when it lies in the half-open turn `(-π, π]`.
pub open spec fn in_canonical_range(a: int) -> bool {
    -PI_FP < a <= PI_FP
}

/// The canonical form of an angle: the unique representative of its
/// whole-turn equivalence class that lies in `(-π, π]`.  Shifting `a` so
/// that the target range becomes `[0, τ)` reduces the choice to a single
/// Euclidean remainder.
pub open spec fn norm_spec(a: int) -> int {
    ((a + PI_FP - 1) % (TAU_FP as int)) - PI_FP + 1
}

/// Every normalized angle lies in the canonical range `(-π, π]`.
pub proof fn lemma_norm_in_range(a: int)
    ensures
        in_canonical_range(norm_spec(a)),
{
    vstd::arithmetic::div_mod::lemma_mod_division_less_than_divisor(a + PI_FP - 1, TAU_FP as int);
}

/// Normalization is unchanged by adding or subtracting a whole turn.
pub proof fn lemma_norm_shift(a: int)
    ensures
        norm_spec(a + TAU_FP) == norm_spec(a),
        norm_spec(a - TAU_FP) == norm_spec(a),
{
    vstd::arithmetic::div_mod::lemma_mod_add_multiples_vanish(a + PI_FP - 1, TAU_FP as int);
    vstd::arithmetic::div_mod::lemma_mod_sub_multiples_vanish(a + PI_FP - 1, TAU_FP as int);
}

/// A canonical angle is already its own normalized form.
pub proof fn lemma_norm_id(a: int)
    requires
        in_canonical_range(a),
    ensures
        norm_spec(a) == a,
{
    vstd::arithmetic::div_mod::lemma_fundamental_div_mod_converse_mod(
        a + PI_FP - 1,
        TAU_FP as int,
        0,
        a + PI_FP - 1,
    );
}

/// Normalizing an operand before an addition does not change the
/// normalized sum.
pub proof fn lemma_norm_add(a: int, c: int)
    ensures
        norm_spec(norm_spec(a) + c) == norm_spec(a + c),
{
    let tau = TAU_FP as int;
    let m = (a + PI_FP - 1) % tau;
    assert(norm_spec(a) + c + PI_FP - 1 == m + (c as int)) by {
        assert(norm_spec(a) == m - PI_FP + 1);
    }
    vstd::arithmetic::div_mod::lemma_add_mod_noop_right(c, a + PI_FP - 1, tau);
    assert((c + m) % tau == (c + (a + PI_FP - 1)) % tau);
}

/// Law: the normalized difference of any two angles lies in `(-π, π]`,
/// and normalization is invariant under shifting by a whole turn.
pub proof fn lemma_angle_normalization(a: int, b: int, x: int)
    ensures
        in_canonical_range(norm_spec(a - b)),
        norm_spec(x + TAU_FP) == norm_spec(x),
{
    lemma_norm_in_range(a - b);
    lemma_norm_shift(x);
}

/// Fold an angle into the canonical range `(-π, π]` by whole turns.
pub fn normalize(a: i64) -> (r: i64)
    ensures
        r as int == norm_spec(a as int),
        in_canonical_range(r as int),
{
    let mut r: i64 = a;
    while r > PI_FP
        invariant
            norm_spec(r as int) == norm_spec(a as int),
        decreases r as int + PI_FP,
    {
        proof {
            lemma_norm_shift(r - TAU_FP);
        }
        r = r - TAU_FP;
    }
    while r <= -PI_FP
        invariant
            r <= PI_FP,
            norm_spec(r as int) == norm_spec(a as int),
        decreases PI_FP - r as int,
    {
        proof {
            lemma_norm_shift(r as int);
        }
        r = r + TAU_FP;
    }
    proof {
        lemma_norm_id(r as int);
    }
    r
}

} // verus!
