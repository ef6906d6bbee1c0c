//! The orbit rig: the one piece of state the controller keeps, and the
//! once-per-frame update that steers it.
//!
//! While a drag is active the rig remembers the ground angle captured when
//! the drag began (the anchor) and measures every later frame's rotation
//! from that anchor, so the grabbed point stays under the cursor.  The
//! orbit angle is stored explicitly; the camera transform is derived from
//! it by the placement mapping and never read back.

use vstd::prelude::*;
use crate::angle::{in_canonical_range, lemma_norm_add, lemma_norm_in_range, norm_spec, normalize};
use crate::placement::{OrbitConfig, Placement, placement_from_angle, placement_spec, wf_config};
use crate::targeter::{PointerRay, target_angle_from_ray, target_angle_spec, wf_ray};

verus! {

/// The controller's persistent state: the anchor captured at drag start
/// (`None` while idle) and the camera's current orbit angle.
#[derive(Clone, Copy, PartialEq, Eq, Structural, Debug)]
pub struct OrbitRig {
    pub anchor_angle: Option<i64>,
    pub orbit_angle: i64,
}

impl OrbitRig {
    /// Both stored angles stay in the canonical range `(-π, π]`.
    pub open spec fn wf(self) -> bool {
        &&& in_canonical_range(self.orbit_angle as int)
        &&& match self.anchor_angle {
            Some(a) => in_canonical_range(a as int),
            None => true,
        }
    }

    /// A rig at the given orbit angle, not dragging.
    pub fn new(initial_angle: i64) -> (rig: OrbitRig)
        ensures
            rig.wf(),
            rig.anchor_angle is None,
            rig.orbit_angle as int == norm_spec(initial_angle as int),
    {
        OrbitRig { anchor_angle: None, orbit_angle: normalize(initial_angle) }
    }

    /// One frame of the drag-to-orbit state machine, given whether the
    /// drag button is held and the frame's steering angle (if any).
    ///
    /// - Button released: drop the anchor, keep the camera still.
    /// - Dragging with no usable target: change nothing this frame.
    /// - Drag start: capture the target as the anchor, keep the camera
    ///   still.
    /// - Drag continuing: turn the camera by the normalized difference
    ///   between the target and the anchor, opposite to the drag, and
    ///   keep the anchor as captured at drag start.
    pub fn update(&mut self, dragging: bool, target_angle: Option<i64>)
        requires
            old(self).wf(),
        ensures
            final(self).wf(),
            *final(self) == update_spec(*old(self), dragging, target_angle),
            !dragging ==> final(self).anchor_angle is None,
            !dragging ==> final(self).orbit_angle == old(self).orbit_angle,
            dragging && target_angle is None ==> *final(self) == *old(self),
            dragging && target_angle is Some && old(self).anchor_angle is None ==> final(self).orbit_angle == old(self).orbit_angle,
            dragging && target_angle is Some && old(self).anchor_angle is Some ==> final(self).anchor_angle == old(self).anchor_angle,
    {
        if !dragging {
            self.anchor_angle = None;
            return ;
        }
        match target_angle {
            None => {},
            Some(t) => {
                let tn: i64 = normalize(t);
                match self.anchor_angle {
                    None => {
                        proof {
                            lemma_norm_in_range(t as int);
                        }
                        self.anchor_angle = Some(tn);
                    },
                    Some(a0) => {
                        let delta: i64 = normalize(tn - a0);
                        proof {
                            lemma_norm_add(t as int, -(a0 as int));
                            lemma_norm_in_range((t as int) - (a0 as int));
                        }
                        self.orbit_angle = normalize(self.orbit_angle - delta);
                    },
                }
            },
        }
    }

    /// One frame of the controller as the host drives it: take the
    /// frame's pointer ray (or its absence) and the drag-button state,
    /// derive the steering angle by ground intersection, and step the
    /// drag state machine with it.
    pub fn update_with_ray(&mut self, dragging: bool, ray: Option<PointerRay>, cfg: &OrbitConfig)
        requires
            old(self).wf(),
            wf_config(*cfg),
            ray matches Some(r) ==> wf_ray(r),
        ensures
            final(self).wf(),
            *final(self) == update_spec(*old(self), dragging, frame_target_spec(ray, *cfg)),
    {
        match ray {
            None => {
                self.update(dragging, None);
            },
            Some(r) => {
                let t: Option<i64> = target_angle_from_ray(&r, cfg.ground_height);
                self.update(dragging, t);
            },
        }
    }

    /// The camera placement this rig currently calls for.
    pub fn placement(&self, cfg: &OrbitConfig) -> (p: Placement)
        requires
            wf_config(*cfg),
        ensures
            p == placement_spec(*cfg, self.orbit_angle as int),
    {
        placement_from_angle(cfg, self.orbit_angle)
    }
}

/// The steering angle a frame offers the rig: `None` when the pointer has
/// no ray this frame or the ray misses the ground plane.
pub open spec fn frame_target_spec(ray: Option<PointerRay>, cfg: OrbitConfig) -> Option<i64> {
    match ray {
        None => None,
        Some(r) => target_angle_spec(r, cfg.ground_height as int),
    }
}

/// Law: releasing the drag button clears the anchor and leaves the orbit
/// angle unchanged, whatever the frame's ray produced.
pub proof fn lemma_release_resets_anchor(pre: OrbitRig, target_angle: Option<i64>)
    ensures
        update_spec(pre, false, target_angle).anchor_angle is None,
        update_spec(pre, false, target_angle).orbit_angle == pre.orbit_angle,
{
}

/// Law: the first dragging frame only captures the anchor — the camera's
/// orbit angle does not move.
pub proof fn lemma_drag_start_keeps_camera(pre: OrbitRig, t: i64)
    requires
        pre.anchor_angle is None,
    ensures
        update_spec(pre, true, Some(t)).orbit_angle == pre.orbit_angle,
        update_spec(pre, true, Some(t)).anchor_angle == Some(norm_spec(t as int) as i64),
{
}

/// Law: while a drag continues, the rotation applied in one frame is the
/// canonical representative of the offset between the frame's target and
/// the anchor — it lies in `(-π, π]`, so a target just across the ±π seam
/// turns the camera the short way round, never the long way.
pub proof fn lemma_continuation_turns_the_short_way(pre: OrbitRig, t: i64, a0: i64)
    requires
        pre.anchor_angle == Some(a0),
    ensures
        in_canonical_range(norm_spec((t as int) - (a0 as int))),
        update_spec(pre, true, Some(t)).orbit_angle as int == norm_spec(
            pre.orbit_angle - norm_spec((t as int) - (a0 as int)),
        ),
{
    lemma_norm_in_range((t as int) - (a0 as int));
    lemma_norm_in_range(pre.orbit_angle - norm_spec((t as int) - (a0 as int)));
}

/// Law: a dragging frame with no usable ground target leaves the rig, and
/// with it the derived camera placement, exactly as they were.
pub proof fn lemma_degenerate_frame_skips(pre: OrbitRig, cfg: OrbitConfig)
    ensures
        update_spec(pre, true, None) == pre,
        placement_spec(cfg, update_spec(pre, true, None).orbit_angle as int) == placement_spec(
            cfg,
            pre.orbit_angle as int,
        ),
{
}

/// What one update step does to the rig, as a function of the old state,
/// the drag-button state and the frame's steering angle.
pub open spec fn update_spec(pre: OrbitRig, dragging: bool, target_angle: Option<i64>) -> OrbitRig {
    if !dragging {
        OrbitRig { anchor_angle: None, orbit_angle: pre.orbit_angle }
    } else {
        match target_angle {
            None => pre,
            Some(t) => match pre.anchor_angle {
                None => OrbitRig {
                    anchor_angle: Some(norm_spec(t as int) as i64),
                    orbit_angle: pre.orbit_angle,
                },
                Some(a0) => OrbitRig {
                    anchor_angle: pre.anchor_angle,
                    orbit_angle: norm_spec(
                        pre.orbit_angle - norm_spec((t as int) - (a0 as int)),
                    ) as i64,
                },
            },
        }
    }
}

} // verus!
