//! An orbit-camera rig: the camera rides a fixed-radius circle around a
//! focal point and is steered by dragging the pointer across a ground plane.
//!
//! All geometry is carried out in fixed-point integers, one millionth of a
//! radian or of a world unit per step, so every computation here is exact,
//! deterministic and fully verified.
//!
//! - [`fixed`] holds the fixed-point scale and the rounding division that
//!   every other module shares.
//! - [`angle`] normalizes angles into the canonical half-open turn `(-π, π]`.
//! - [`trig`] gives fixed-point sine and cosine.
//! - [`targeter`] intersects a pointer ray with the ground plane and turns
//!   the hit point into an angle around the vertical axis.
//! - [`placement`] maps an orbit angle to a camera position and look
//!   direction on the circle.
//! - [`rig`] keeps the drag state and advances it once per frame.

pub mod angle;
pub mod fixed;
pub mod placement;
pub mod rig;
pub mod targeter;
pub mod trig;
