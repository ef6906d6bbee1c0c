//! From orbit angle to camera placement: a pure mapping onto the fixed
//! circle, so the same angle always yields the identical placement.

use vstd::prelude::*;
use crate::fixed::{COORD_LIMIT, SCALE, iabs, lemma_iabs_mul, lemma_qdiv_bound, qdiv, qdiv128};
use crate::targeter::Vec3Fp;
use crate::trig::{cos_spec, sin_spec, cos_fp, sin_fp};

verus! {

/// The fixed geometry of the orbit: circle radius, the height the camera
/// rides at, the height of the focus point on the vertical axis, and the
/// height of the ground plane the pointer steers on.  All in fixed-point
/// steps.
#[derive(Clone, Copy, PartialEq, Eq, Structural, Debug)]
pub struct OrbitConfig {
    pub radius: i64,
    pub camera_height: i64,
    pub focus_height: i64,
    pub ground_height: i64,
}

/// A configuration the rig accepts: a non-negative radius and every
/// length within the world bounds.
pub open spec fn wf_config(c: OrbitConfig) -> bool {
    &&& 0 <= c.radius <= COORD_LIMIT
    &&& iabs(c.camera_height as int) <= COORD_LIMIT
    &&& iabs(c.focus_height as int) <= COORD_LIMIT
    &&& iabs(c.ground_height as int) <= COORD_LIMIT
}

/// The camera placement for one frame: a position on the circle and the
/// direction from there toward the focus point (the look-at direction,
/// with world-up as the up vector).
#[derive(Clone, Copy, PartialEq, Eq, Structural, Debug)]
pub struct Placement {
    pub position: Vec3Fp,
    pub look: Vec3Fp,
}

/// The position's horizontal coordinates on the circle.
pub open spec fn pos_x_spec(c: OrbitConfig, angle: int) -> int {
    qdiv((c.radius as int) * cos_spec(angle), SCALE as int)
}

pub open spec fn pos_z_spec(c: OrbitConfig, angle: int) -> int {
    qdiv((c.radius as int) * sin_spec(angle), SCALE as int)
}

/// The placement determined by an orbit angle:
/// position `(radius·cos(angle), camera_height, radius·sin(angle))`,
/// looking at the focus point `(0, focus_height, 0)`.
pub open spec fn placement_spec(c: OrbitConfig, angle: int) -> Placement {
    let px = pos_x_spec(c, angle);
    let pz = pos_z_spec(c, angle);
    Placement {
        position: Vec3Fp { x: px as i64, y: c.camera_height, z: pz as i64 },
        look: Vec3Fp {
            x: (-px) as i64,
            y: (c.focus_height - c.camera_height) as i64,
            z: (-pz) as i64,
        },
    }
}

/// The circle never leaves the world bounds: both horizontal coordinates
/// stay within the radius.
pub proof fn lemma_position_bounds(c: OrbitConfig, angle: int)
    requires
        wf_config(c),
    ensures
        iabs(pos_x_spec(c, angle)) <= c.radius,
        iabs(pos_z_spec(c, angle)) <= c.radius,
{
    crate::trig::lemma_cos_bounds(angle);
    crate::trig::lemma_sin_bounds(angle);
    let r = c.radius as int;
    lemma_iabs_mul(r, cos_spec(angle));
    vstd::arithmetic::mul::lemma_mul_upper_bound(r, r, iabs(cos_spec(angle)), SCALE as int);
    assert(iabs(r * cos_spec(angle)) <= r * (SCALE as int));
    lemma_qdiv_bound(r * cos_spec(angle), SCALE as int, r);
    lemma_iabs_mul(r, sin_spec(angle));
    vstd::arithmetic::mul::lemma_mul_upper_bound(r, r, iabs(sin_spec(angle)), SCALE as int);
    assert(iabs(r * sin_spec(angle)) <= r * (SCALE as int));
    lemma_qdiv_bound(r * sin_spec(angle), SCALE as int, r);
}

/// Law: the placement mapping is pure — any two placements computed for
/// the same configuration and angle are identical, bit for bit.
pub proof fn lemma_placement_idempotent(c: OrbitConfig, angle: i64, first: Placement, again: Placement)
    requires
        first == placement_spec(c, angle as int),
        again == placement_spec(c, angle as int),
    ensures
        first == again,
{
}

/// Compute the placement for an orbit angle.  A pure function of its
/// arguments: the same configuration and angle always give the identical
/// placement, bit for bit.
pub fn placement_from_angle(cfg: &OrbitConfig, angle: i64) -> (p: Placement)
    requires
        wf_config(*cfg),
    ensures
        p == placement_spec(*cfg, angle as int),
        p.position.x as int == pos_x_spec(*cfg, angle as int),
        p.position.y == cfg.camera_height,
        p.position.z as int == pos_z_spec(*cfg, angle as int),
        p.look.x == -p.position.x,
        p.look.y == cfg.focus_height - cfg.camera_height,
        p.look.z == -p.position.z,
{
    proof {
        lemma_position_bounds(*cfg, angle as int);
        crate::trig::lemma_cos_bounds(angle as int);
        crate::trig::lemma_sin_bounds(angle as int);
    }
    let c: i64 = cos_fp(angle);
    let s: i64 = sin_fp(angle);
    proof {
        lemma_iabs_mul(cfg.radius as int, c as int);
        vstd::arithmetic::mul::lemma_mul_upper_bound(
            cfg.radius as int,
            COORD_LIMIT as int,
            iabs(c as int),
            SCALE as int,
        );
        lemma_iabs_mul(cfg.radius as int, s as int);
        vstd::arithmetic::mul::lemma_mul_upper_bound(
            cfg.radius as int,
            COORD_LIMIT as int,
            iabs(s as int),
            SCALE as int,
        );
    }
    let px: i64 = qdiv128((cfg.radius as i128) * (c as i128), SCALE as i128) as i64;
    let pz: i64 = qdiv128((cfg.radius as i128) * (s as i128), SCALE as i128) as i64;
    Placement {
        position: Vec3Fp { x: px, y: cfg.camera_height, z: pz },
        look: Vec3Fp { x: -px, y: cfg.focus_height - cfg.camera_height, z: -pz },
    }
}

} // verus!
