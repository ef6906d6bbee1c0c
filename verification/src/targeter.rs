//! From pointer ray to steering angle: intersect the ray with the
//! horizontal ground plane, then measure the hit point's angle around the
//! vertical axis through the origin.
//!
//! A ray parallel to the plane has no hit; that is an expected, recoverable
//! case and is reported as `None`, never as an error.

use vstd::prelude::*;
use crate::angle::{HALF_PI_FP, PI_FP, QUARTER_PI_FP, in_canonical_range};
use crate::fixed::{COORD_LIMIT, SCALE, iabs, lemma_iabs_mul, lemma_qdiv_bound, qdiv, qdiv128};

verus! {

/// A point or direction in world space, in fixed-point steps per axis.
/// `y` is the vertical axis; the camera orbits around it.
#[derive(Clone, Copy, PartialEq, Eq, Structural, Debug)]
pub struct Vec3Fp {
    pub x: i64,
    pub y: i64,
    pub z: i64,
}

/// The pointer's line of sight for one frame: a world-space origin and
/// direction.  Recomputed every frame, never stored.
#[derive(Clone, Copy, PartialEq, Eq, Structural, Debug)]
pub struct PointerRay {
    pub origin: Vec3Fp,
    pub dir: Vec3Fp,
}

/// A ray the targeter accepts: origin within the world bounds, direction
/// no longer than one whole unit per axis (any normalized direction fits).
pub open spec fn wf_ray(r: PointerRay) -> bool {
    &&& iabs(r.origin.x as int) <= COORD_LIMIT
    &&& iabs(r.origin.y as int) <= COORD_LIMIT
    &&& iabs(r.origin.z as int) <= COORD_LIMIT
    &&& iabs(r.dir.x as int) <= SCALE
    &&& iabs(r.dir.y as int) <= SCALE
    &&& iabs(r.dir.z as int) <= SCALE
}

/// Bend coefficient of the arctangent approximation, about 0.273 radian.
pub const ATAN_BOW: i64 = 273_000;

/// Arctangent of `u / SCALE` for `u` in `[0, SCALE]`, in fixed-point
/// radians: the quadratic approximation `(π/4)·u + 0.273·u·(1 - u)`,
/// exact at 0 and at 1 (where it yields π/4).
pub open spec fn atan_unit_spec(u: int) -> int {
    let num = u * (QUARTER_PI_FP * SCALE + ATAN_BOW * (SCALE - u));
    qdiv(num, SCALE * SCALE)
}

/// The unit arctangent stays within `[0, π/4]` on `[0, SCALE]`.
pub proof fn lemma_atan_unit_range(u: int)
    requires
        0 <= u <= SCALE,
    ensures
        0 <= atan_unit_spec(u) <= QUARTER_PI_FP,
        0 <= u * (QUARTER_PI_FP * SCALE + ATAN_BOW * (SCALE - u)),
        u * (QUARTER_PI_FP * SCALE + ATAN_BOW * (SCALE - u)) <= QUARTER_PI_FP * (SCALE * SCALE),
{
    let inner = QUARTER_PI_FP * SCALE + ATAN_BOW * (SCALE - u);
    let num = u * inner;
    let den = SCALE * SCALE;
    vstd::arithmetic::mul::lemma_mul_nonnegative(u, inner);
    assert(u * (785_398 * 1_000_000 + 273_000 * (1_000_000 - u)) <= 785_398 * 1_000_000
        * 1_000_000) by (nonlinear_arith)
        requires
            0 <= u <= 1_000_000,
    ;
    vstd::arithmetic::div_mod::lemma_div_pos_is_pos(num, den);
    vstd::arithmetic::div_mod::lemma_div_is_ordered(num, QUARTER_PI_FP * den, den);
    vstd::arithmetic::div_mod::lemma_div_multiples_vanish(QUARTER_PI_FP as int, den);
}

/// Arctangent of `u / SCALE` for `u` in `[0, SCALE]`.
fn atan_unit(u: i64) -> (r: i64)
    requires
        0 <= u <= SCALE,
    ensures
        r as int == atan_unit_spec(u as int),
        0 <= r <= QUARTER_PI_FP,
{
    proof {
        lemma_atan_unit_range(u as int);
    }
    let inner: i128 = (QUARTER_PI_FP as i128) * (SCALE as i128) + (ATAN_BOW as i128) * ((SCALE
        - u) as i128);
    proof {
        vstd::arithmetic::mul::lemma_mul_upper_bound(
            u as int,
            SCALE as int,
            inner as int,
            2_000_000_000_000int,
        );
        vstd::arithmetic::mul::lemma_mul_nonnegative(u as int, inner as int);
    }
    let num: i128 = (u as i128) * inner;
    let den: i128 = (SCALE as i128) * (SCALE as i128);
    proof {
        assert(num as int == (u as int) * (QUARTER_PI_FP * SCALE + ATAN_BOW * (SCALE - (
        u as int))));
        vstd::arithmetic::div_mod::lemma_div_pos_is_pos(num as int, den as int);
        vstd::arithmetic::div_mod::lemma_div_is_ordered(
            num as int,
            (QUARTER_PI_FP as int) * (den as int),
            den as int,
        );
        vstd::arithmetic::div_mod::lemma_div_multiples_vanish(QUARTER_PI_FP as int, den as int);
    }
    let q: i128 = num / den;
    q as i64
}

/// Angle of the point `(x, z)` around the vertical axis, measured from the
/// positive x axis toward positive z, in `(-π, π]`; 0 when both are 0.
/// Built from the unit arctangent by octant folding.
pub open spec fn atan2_spec(z: int, x: int) -> int {
    if z == 0 && x == 0 {
        0
    } else {
        let ax = iabs(x);
        let az = iabs(z);
        let base = if ax >= az {
            atan_unit_spec(qdiv(az * SCALE, ax))
        } else {
            HALF_PI_FP - atan_unit_spec(qdiv(ax * SCALE, az))
        };
        let mag = if x >= 0 {
            base
        } else {
            PI_FP - base
        };
        let r = if z >= 0 {
            mag
        } else {
            -mag
        };
        if r == -PI_FP {
            PI_FP as int
        } else {
            r
        }
    }
}

/// The planar angle always lands in the canonical range `(-π, π]`.
pub proof fn lemma_atan2_range(z: int, x: int)
    ensures
        in_canonical_range(atan2_spec(z, x)),
{
    if z == 0 && x == 0 {
    } else {
        let ax = iabs(x);
        let az = iabs(z);
        if ax >= az {
            lemma_qdiv_bound(az * SCALE, ax, SCALE as int);
            vstd::arithmetic::div_mod::lemma_div_pos_is_pos(iabs(az * SCALE), ax);
            lemma_atan_unit_range(qdiv(az * SCALE, ax));
        } else {
            lemma_qdiv_bound(ax * SCALE, az, SCALE as int);
            vstd::arithmetic::div_mod::lemma_div_pos_is_pos(iabs(ax * SCALE), az);
            lemma_atan_unit_range(qdiv(ax * SCALE, az));
        }
    }
}

/// Angle of the point `(x, z)` around the vertical axis, in `(-π, π]`.
pub fn atan2_fp(z: i64, x: i64) -> (r: i64)
    ensures
        r as int == atan2_spec(z as int, x as int),
        in_canonical_range(r as int),
{
    proof {
        lemma_atan2_range(z as int, x as int);
    }
    if z == 0 && x == 0 {
        return 0;
    }
    let ax: i128 = if x < 0 {
        -(x as i128)
    } else {
        x as i128
    };
    let az: i128 = if z < 0 {
        -(z as i128)
    } else {
        z as i128
    };
    let base: i64 = if ax >= az {
        proof {
            lemma_qdiv_bound((az as int) * (SCALE as int), ax as int, SCALE as int);
            vstd::arithmetic::div_mod::lemma_div_pos_is_pos(iabs((az as int) * (SCALE as int)),
                ax as int);
        }
        let ratio: i128 = qdiv128(az * (SCALE as i128), ax);
        atan_unit(ratio as i64)
    } else {
        proof {
            lemma_qdiv_bound((ax as int) * (SCALE as int), az as int, SCALE as int);
            vstd::arithmetic::div_mod::lemma_div_pos_is_pos(iabs((ax as int) * (SCALE as int)),
                az as int);
        }
        let ratio: i128 = qdiv128(ax * (SCALE as i128), az);
        HALF_PI_FP - atan_unit(ratio as i64)
    };
    let mag: i64 = if x >= 0 {
        base
    } else {
        PI_FP - base
    };
    let r: i64 = if z >= 0 {
        mag
    } else {
        -mag
    };
    if r == -PI_FP {
        PI_FP
    } else {
        r
    }
}

/// The ray parameter of the hit with the plane at height `h`, in
/// fixed-point steps: `t = (h - origin.y) / dir.y`.
pub open spec fn hit_param_spec(ray: PointerRay, h: int) -> int {
    qdiv((h - ray.origin.y) * SCALE, ray.dir.y as int)
}

/// Where the ray meets the horizontal plane at height `h`: the hit point's
/// `x` and `z`, or `None` when the ray runs parallel to the plane.
pub open spec fn ground_hit_spec(ray: PointerRay, h: int) -> Option<(int, int)> {
    if ray.dir.y == 0 {
        None
    } else {
        let t = hit_param_spec(ray, h);
        Some(
            (
                ray.origin.x + qdiv(t * ray.dir.x, SCALE as int),
                ray.origin.z + qdiv(t * ray.dir.z, SCALE as int),
            ),
        )
    }
}

/// The hit parameter and both hit-point offsets stay within fixed bounds
/// for a well-formed ray, so the hit point fits in machine words.
pub proof fn lemma_hit_bounds(ray: PointerRay, h: int)
    requires
        wf_ray(ray),
        iabs(h) <= COORD_LIMIT,
        ray.dir.y != 0,
    ensures
        iabs(hit_param_spec(ray, h)) <= 2 * COORD_LIMIT * SCALE,
        iabs(qdiv(hit_param_spec(ray, h) * ray.dir.x, SCALE as int)) <= 2 * COORD_LIMIT * SCALE,
        iabs(qdiv(hit_param_spec(ray, h) * ray.dir.z, SCALE as int)) <= 2 * COORD_LIMIT * SCALE,
{
    let t = hit_param_spec(ray, h);
    let tb = 2 * (COORD_LIMIT as int) * (SCALE as int);
    vstd::arithmetic::mul::lemma_mul_inequality(1, iabs(ray.dir.y as int), tb);
    lemma_qdiv_bound((h - ray.origin.y) * SCALE, ray.dir.y as int, tb);
    lemma_iabs_mul(t, ray.dir.x as int);
    vstd::arithmetic::mul::lemma_mul_upper_bound(
        iabs(t),
        tb,
        iabs(ray.dir.x as int),
        SCALE as int,
    );
    lemma_qdiv_bound(t * ray.dir.x, SCALE as int, tb);
    lemma_iabs_mul(t, ray.dir.z as int);
    vstd::arithmetic::mul::lemma_mul_upper_bound(
        iabs(t),
        tb,
        iabs(ray.dir.z as int),
        SCALE as int,
    );
    lemma_qdiv_bound(t * ray.dir.z, SCALE as int, tb);
}

/// Intersect the ray with the horizontal plane at height `h`; `None`
/// exactly when the ray is parallel to the plane.
pub fn ground_hit(ray: &PointerRay, h: i64) -> (r: Option<(i64, i64)>)
    requires
        wf_ray(*ray),
        iabs(h as int) <= COORD_LIMIT,
    ensures
        r is None <==> ray.dir.y == 0,
        r matches Some((px, pz)) ==> ground_hit_spec(*ray, h as int) == Some(
            (px as int, pz as int),
        ),
{
    if ray.dir.y == 0 {
        return None;
    }
    proof {
        lemma_hit_bounds(*ray, h as int);
    }
    let t: i128 = qdiv128(((h - ray.origin.y) as i128) * (SCALE as i128), ray.dir.y as i128);
    proof {
        lemma_iabs_mul(t as int, ray.dir.x as int);
        lemma_iabs_mul(t as int, ray.dir.z as int);
        vstd::arithmetic::mul::lemma_mul_upper_bound(
            iabs(t as int),
            2 * (COORD_LIMIT as int) * (SCALE as int),
            iabs(ray.dir.x as int),
            SCALE as int,
        );
        vstd::arithmetic::mul::lemma_mul_upper_bound(
            iabs(t as int),
            2 * (COORD_LIMIT as int) * (SCALE as int),
            iabs(ray.dir.z as int),
            SCALE as int,
        );
    }
    let px_off: i128 = qdiv128(t * (ray.dir.x as i128), SCALE as i128);
    let pz_off: i128 = qdiv128(t * (ray.dir.z as i128), SCALE as i128);
    let px: i64 = ((ray.origin.x as i128) + px_off) as i64;
    let pz: i64 = ((ray.origin.z as i128) + pz_off) as i64;
    Some((px, pz))
}

/// The steering angle the rig receives for one frame: the planar angle of
/// the ground hit, or `None` when the ray misses the plane.
pub open spec fn target_angle_spec(ray: PointerRay, h: int) -> Option<i64> {
    match ground_hit_spec(ray, h) {
        None => None,
        Some((px, pz)) => Some(atan2_spec(pz, px) as i64),
    }
}

/// Turn the frame's pointer ray into a steering angle around the vertical
/// axis; `None` exactly when the ray is parallel to the ground plane.
pub fn target_angle_from_ray(ray: &PointerRay, ground_height: i64) -> (r: Option<i64>)
    requires
        wf_ray(*ray),
        iabs(ground_height as int) <= COORD_LIMIT,
    ensures
        r == target_angle_spec(*ray, ground_height as int),
        r is None <==> ray.dir.y == 0,
        r matches Some(a) ==> in_canonical_range(a as int),
{
    match ground_hit(ray, ground_height) {
        None => None,
        Some((px, pz)) => {
            proof {
                lemma_atan2_range(pz as int, px as int);
            }
            Some(atan2_fp(pz, px))
        },
    }
}

} // verus!
