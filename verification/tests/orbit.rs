use orbit_rig::angle::{normalize, PI_FP, QUARTER_PI_FP, TAU_FP};
use orbit_rig::placement::{placement_from_angle, OrbitConfig};
use orbit_rig::rig::OrbitRig;
use orbit_rig::targeter::{PointerRay, Vec3Fp};

fn demo_config() -> OrbitConfig {
    OrbitConfig {
        radius: 85_000_000,
        camera_height: 580_000_000,
        focus_height: 415_000_000,
        ground_height: 0,
    }
}

fn straight_down_ray(x: i64, z: i64) -> PointerRay {
    PointerRay {
        origin: Vec3Fp { x, y: 100_000_000, z },
        dir: Vec3Fp { x: 0, y: -1_000_000, z: 0 },
    }
}

#[test]
fn placement_is_deterministic() {
    let cfg = demo_config();
    let angles: [i64; 5] = [0, 200_000, -3_000_000, PI_FP, 5_500_000];
    for &a in angles.iter() {
        let first = placement_from_angle(&cfg, a);
        let again = placement_from_angle(&cfg, a);
        assert_eq!(first, again);
    }
}

#[test]
fn placement_at_angle_zero() {
    let cfg = demo_config();
    let p = placement_from_angle(&cfg, 0);
    assert_eq!(p.position.x, 85_000_000);
    assert_eq!(p.position.y, 580_000_000);
    assert_eq!(p.position.z, 0);
    assert_eq!(p.look.x, -85_000_000);
    assert_eq!(p.look.y, 415_000_000 - 580_000_000);
    assert_eq!(p.look.z, 0);
}

#[test]
fn drag_start_captures_anchor_without_moving() {
    let mut rig = OrbitRig::new(0);
    assert_eq!(rig.anchor_angle, None);
    rig.update(true, Some(500_000));
    assert_eq!(rig.anchor_angle, Some(500_000));
    assert_eq!(rig.orbit_angle, 0);
}

#[test]
fn release_resets_anchor() {
    let mut rig = OrbitRig::new(700_000);
    rig.update(true, Some(3_000_000));
    assert_eq!(rig.anchor_angle, Some(3_000_000));
    let orbit_before = rig.orbit_angle;
    rig.update(false, Some(-1_000_000));
    assert_eq!(rig.anchor_angle, None);
    assert_eq!(rig.orbit_angle, orbit_before);
    // Release with no ray at all behaves the same.
    rig.update(true, Some(100_000));
    rig.update(false, None);
    assert_eq!(rig.anchor_angle, None);
    assert_eq!(rig.orbit_angle, orbit_before);
}

#[test]
fn degenerate_frame_changes_nothing() {
    let cfg = demo_config();
    let mut rig = OrbitRig::new(1_234_567);
    rig.update(true, Some(2_000_000));
    let before = rig;
    let placement_before = rig.placement(&cfg);
    rig.update(true, None);
    assert_eq!(rig, before);
    assert_eq!(rig.placement(&cfg), placement_before);
}

#[test]
fn drag_across_the_seam_continues_smoothly() {
    // Anchor at 3.0 radians, next target at -3.0 radians: the short way
    // round is 2π - 6.0 ≈ 0.2832 radians, not -6.0.
    let mut rig = OrbitRig::new(0);
    rig.update(true, Some(3_000_000));
    rig.update(true, Some(-3_000_000));
    let delta = TAU_FP - 6_000_000;
    assert_eq!(rig.orbit_angle, -delta);
    assert_eq!(rig.anchor_angle, Some(3_000_000));
}

#[test]
fn cumulative_drag_measures_from_the_anchor() {
    // The anchor stays at the drag-start angle for the whole gesture:
    // every frame measures its delta against that anchor and applies it
    // to the camera's current angle.
    let mut rig = OrbitRig::new(0);
    rig.update(true, Some(500_000));
    rig.update(true, Some(700_000));
    assert_eq!(rig.orbit_angle, -200_000);
    rig.update(true, Some(700_000));
    assert_eq!(rig.orbit_angle, normalize(-200_000 - 200_000));
    assert_eq!(rig.anchor_angle, Some(500_000));
}

#[test]
fn end_to_end_drag_scenario() {
    let cfg = demo_config();
    let mut rig = OrbitRig::new(0);
    assert_eq!(rig.placement(&cfg).position.x, 85_000_000);
    assert_eq!(rig.placement(&cfg).position.y, 580_000_000);
    assert_eq!(rig.placement(&cfg).position.z, 0);
    // Drag starts at ground angle 0.5, continues at 0.7: delta 0.2.
    rig.update(true, Some(500_000));
    let initial_cam_theta = rig.orbit_angle;
    rig.update(true, Some(700_000));
    assert_eq!(rig.orbit_angle, initial_cam_theta - 200_000);
    assert_eq!(rig.placement(&cfg), placement_from_angle(&cfg, initial_cam_theta - 200_000));
}

#[test]
fn ray_driven_drag_turns_the_camera() {
    let cfg = demo_config();
    let mut rig = OrbitRig::new(0);
    // First frame: grab the world above the 45-degree diagonal.
    rig.update_with_ray(true, Some(straight_down_ray(10_000_000, 10_000_000)), &cfg);
    assert_eq!(rig.anchor_angle, Some(QUARTER_PI_FP));
    assert_eq!(rig.orbit_angle, 0);
    // Second frame: the pointer now sits over the positive x axis, an
    // eighth of a turn back, so the camera advances an eighth of a turn.
    rig.update_with_ray(true, Some(straight_down_ray(100_000_000, 0)), &cfg);
    assert_eq!(rig.orbit_angle, QUARTER_PI_FP);
}

#[test]
fn positions_stay_on_a_bounded_circle() {
    let cfg = demo_config();
    let mut a: i64 = -7_000_000;
    while a <= 7_000_000 {
        let p = placement_from_angle(&cfg, a);
        assert!(p.position.x.abs() <= cfg.radius);
        assert!(p.position.z.abs() <= cfg.radius);
        assert_eq!(p.position.y, cfg.camera_height);
        a += 131_071;
    }
}

#[test]
fn updates_keep_angles_canonical() {
    let mut rig = OrbitRig::new(9_999_999);
    assert!(-PI_FP < rig.orbit_angle && rig.orbit_angle <= PI_FP);
    let targets: [i64; 6] = [3_100_000, -3_100_000, 0, 2_500_000, -900_000, 3_141_592];
    for &t in targets.iter() {
        rig.update(true, Some(t));
        assert!(-PI_FP < rig.orbit_angle && rig.orbit_angle <= PI_FP);
        if let Some(a) = rig.anchor_angle {
            assert!(-PI_FP < a && a <= PI_FP);
        }
    }
}

#[test]
fn ray_gaps_during_a_drag_are_skipped() {
    let cfg = demo_config();
    let mut rig = OrbitRig::new(0);
    rig.update_with_ray(true, Some(straight_down_ray(10_000_000, 10_000_000)), &cfg);
    let before = rig;
    // The pointer leaves the surface for a frame.
    rig.update_with_ray(true, None, &cfg);
    assert_eq!(rig, before);
    // The ray grazes parallel to the ground plane for a frame.
    let parallel = PointerRay {
        origin: Vec3Fp { x: 0, y: 100_000_000, z: 0 },
        dir: Vec3Fp { x: 1_000_000, y: 0, z: 0 },
    };
    rig.update_with_ray(true, Some(parallel), &cfg);
    assert_eq!(rig, before);
}
