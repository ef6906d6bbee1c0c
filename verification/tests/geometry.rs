use orbit_rig::angle::{normalize, HALF_PI_FP, PI_FP, QUARTER_PI_FP, TAU_FP};
use orbit_rig::fixed::SCALE;
use orbit_rig::targeter::{atan2_fp, ground_hit, target_angle_from_ray, PointerRay, Vec3Fp};
use orbit_rig::trig::{cos_fp, sin_fp};

fn ray(origin: (i64, i64, i64), dir: (i64, i64, i64)) -> PointerRay {
    PointerRay {
        origin: Vec3Fp { x: origin.0, y: origin.1, z: origin.2 },
        dir: Vec3Fp { x: dir.0, y: dir.1, z: dir.2 },
    }
}

#[test]
fn normalize_keeps_canonical_angles() {
    assert_eq!(normalize(0), 0);
    assert_eq!(normalize(1), 1);
    assert_eq!(normalize(-1), -1);
    assert_eq!(normalize(PI_FP), PI_FP);
    assert_eq!(normalize(-PI_FP + 1), -PI_FP + 1);
}

#[test]
fn normalize_folds_the_seam() {
    // -π maps to the canonical representative +π.
    assert_eq!(normalize(-PI_FP), PI_FP);
    // A difference of six radians folds to 2π - 6, the short way round.
    assert_eq!(normalize(6_000_000), 6_000_000 - TAU_FP);
    assert_eq!(normalize(-6_000_000), TAU_FP - 6_000_000);
}

#[test]
fn normalize_is_periodic_and_in_range() {
    let samples: [i64; 9] = [
        0,
        1,
        -1,
        PI_FP,
        -PI_FP,
        3_000_000,
        -3_000_000,
        123_456_789,
        -987_654_321,
    ];
    for &x in samples.iter() {
        let n = normalize(x);
        assert!(-PI_FP < n && n <= PI_FP);
        assert_eq!(normalize(x + TAU_FP), n);
        assert_eq!(normalize(x - TAU_FP), n);
    }
}

#[test]
fn trig_is_exact_at_the_anchors() {
    assert_eq!(sin_fp(0), 0);
    assert_eq!(cos_fp(0), SCALE);
    assert_eq!(sin_fp(HALF_PI_FP), SCALE);
    assert_eq!(cos_fp(HALF_PI_FP), 0);
    assert_eq!(sin_fp(PI_FP), 0);
    assert_eq!(cos_fp(PI_FP), -SCALE);
    assert_eq!(sin_fp(-HALF_PI_FP), -SCALE);
}

#[test]
fn trig_stays_within_one_unit() {
    let mut a: i64 = -8_000_000;
    while a <= 8_000_000 {
        assert!(sin_fp(a).abs() <= SCALE);
        assert!(cos_fp(a).abs() <= SCALE);
        a += 97_003;
    }
}

#[test]
fn atan2_on_the_axes() {
    assert_eq!(atan2_fp(0, 5), 0);
    assert_eq!(atan2_fp(0, 1_000_000_000), 0);
    assert_eq!(atan2_fp(7, 0), HALF_PI_FP);
    assert_eq!(atan2_fp(-4, 0), -HALF_PI_FP);
    assert_eq!(atan2_fp(0, -3), PI_FP);
    assert_eq!(atan2_fp(0, 0), 0);
}

#[test]
fn atan2_on_the_diagonals() {
    assert_eq!(atan2_fp(1_000_000, 1_000_000), QUARTER_PI_FP);
    assert_eq!(atan2_fp(1_000_000, -1_000_000), PI_FP - QUARTER_PI_FP);
    assert_eq!(atan2_fp(-1_000_000, 1_000_000), -QUARTER_PI_FP);
    assert_eq!(atan2_fp(-1_000_000, -1_000_000), -(PI_FP - QUARTER_PI_FP));
}

#[test]
fn atan2_never_returns_minus_pi() {
    // A hair below the negative x axis: the true angle is just past -π,
    // and the canonical result must wrap to +π, not -π.
    let r = atan2_fp(-1, -100_000_000);
    assert_eq!(r, PI_FP);
}

#[test]
fn ground_hit_straight_down() {
    // From 100 units up, looking straight down onto the plane at height 0.
    let r = ray((10_000_000, 100_000_000, 10_000_000), (0, -1_000_000, 0));
    assert_eq!(ground_hit(&r, 0), Some((10_000_000, 10_000_000)));
}

#[test]
fn ground_hit_oblique() {
    // Falling at 45 degrees along x: drifts 100 units in x on the way down.
    let r = ray((0, 100_000_000, 0), (1_000_000, -1_000_000, 0));
    assert_eq!(ground_hit(&r, 0), Some((100_000_000, 0)));
}

#[test]
fn parallel_ray_misses_the_plane() {
    let r = ray((0, 100_000_000, 0), (1_000_000, 0, 0));
    assert_eq!(ground_hit(&r, 0), None);
    assert_eq!(target_angle_from_ray(&r, 0), None);
}

#[test]
fn target_angle_of_a_diagonal_hit() {
    let r = ray((10_000_000, 100_000_000, 10_000_000), (0, -1_000_000, 0));
    assert_eq!(target_angle_from_ray(&r, 0), Some(QUARTER_PI_FP));
}
