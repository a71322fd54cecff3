//! Tests of the numeric actuation law: the ease curve, the angular drive
//! and the kick geometry.

use soccer_sim::actuation::{
    angle_dist, drive_impulse, drive_magnitude, drive_unit, ease_in_out_quad, kick_impulse,
    kick_in_range, kicker_position, next_angvel, rotation_sign,
};
use soccer_sim::fixed::{clamp, dist_sq, isqrt, wrap_angle, Vec2, PI_URAD, TWO_PI_URAD};
use soccer_sim::infos;

#[test]
fn ease_curve_fixes_zero() {
    assert_eq!(ease_in_out_quad(0), 0);
}

#[test]
fn ease_curve_fixes_one() {
    assert_eq!(ease_in_out_quad(1000), 1000);
}

#[test]
fn ease_curve_fixes_one_half() {
    assert_eq!(ease_in_out_quad(500), 500);
}

#[test]
fn ease_curve_quadratic_values() {
    // 2 * 0.25^2 = 0.125 and 1 - 2 * 0.25^2 = 0.875, in permille.
    assert_eq!(ease_in_out_quad(250), 125);
    assert_eq!(ease_in_out_quad(750), 875);
}

#[test]
fn ease_curve_monotone_samples() {
    let mut prev = 0;
    for x in 0..=1000 {
        let y = ease_in_out_quad(x);
        assert!(y >= prev, "ease curve decreased at {}", x);
        prev = y;
    }
}

#[test]
fn rotation_sign_zero_inside_dead_zone() {
    assert_eq!(rotation_sign(0), 0);
    assert_eq!(rotation_sign(infos::ROTATION_DELTA), 0);
    assert_eq!(rotation_sign(-infos::ROTATION_DELTA), 0);
}

#[test]
fn rotation_sign_follows_direction_outside_dead_zone() {
    assert_eq!(rotation_sign(infos::ROTATION_DELTA + 1), 1);
    assert_eq!(rotation_sign(-infos::ROTATION_DELTA - 1), -1);
}

#[test]
fn angle_dist_wrap_guard_is_zero_near_boundary() {
    // pi against -pi wraps to a distance of 2*pi ~ 0; beyond the guard
    // band the distance is treated as zero.
    assert_eq!(angle_dist(PI_URAD, -PI_URAD), 0);
    // Just inside the guard band the sign is preserved.
    let d = angle_dist(PI_URAD - infos::ROTATION_DELTA - 1, 0);
    assert_eq!(d, PI_URAD - infos::ROTATION_DELTA - 1);
}

#[test]
fn angle_dist_plain_difference() {
    assert_eq!(angle_dist(500_000, 100_000), 400_000);
    assert_eq!(angle_dist(100_000, 500_000), -400_000);
}

#[test]
fn wrap_angle_identities() {
    assert_eq!(wrap_angle(0), 0);
    assert_eq!(wrap_angle(TWO_PI_URAD), 0);
    assert_eq!(wrap_angle(-TWO_PI_URAD), 0);
    assert_eq!(wrap_angle(PI_URAD + 1), -PI_URAD + 1);
}

#[test]
fn next_angvel_decays_inside_dead_zone() {
    assert_eq!(next_angvel(1000, 0), 900);
    assert_eq!(next_angvel(-1000, 0), -900);
}

#[test]
fn next_angvel_nudges_and_clamps() {
    assert_eq!(next_angvel(0, infos::ROTATION_DELTA + 1), infos::ROTATION_SPEED);
    assert_eq!(
        next_angvel(infos::ROTATION_MAX_SPEED, infos::ROTATION_DELTA + 1),
        infos::ROTATION_MAX_SPEED
    );
    assert_eq!(
        next_angvel(-infos::ROTATION_MAX_SPEED, -infos::ROTATION_DELTA - 1),
        -infos::ROTATION_MAX_SPEED
    );
}

#[test]
fn isqrt_values() {
    assert_eq!(isqrt(0), 0);
    assert_eq!(isqrt(24), 4);
    assert_eq!(isqrt(25), 5);
    assert_eq!(isqrt(26), 5);
}

#[test]
fn dist_sq_values() {
    let a = Vec2 { x: 0, y: 0 };
    let b = Vec2 { x: 3, y: 4 };
    assert_eq!(dist_sq(a, b), 25);
}

#[test]
fn clamp_values() {
    assert_eq!(clamp(5, 0, 10), 5);
    assert_eq!(clamp(-5, 0, 10), 0);
    assert_eq!(clamp(15, 0, 10), 10);
}

#[test]
fn drive_magnitude_full_power() {
    // Full power eases to 1.0, scaled by POWER_SPEED.
    assert_eq!(drive_magnitude(255), 20_000);
    assert_eq!(drive_magnitude(0), 0);
}

#[test]
fn drive_unit_axis_aligned() {
    let u = drive_unit(Vec2 { x: 0, y: 0 }, Vec2 { x: 10_000, y: 0 });
    assert_eq!(u, Vec2 { x: 1000, y: 0 });
    let v = drive_unit(Vec2 { x: 0, y: 0 }, Vec2 { x: 0, y: -10_000 });
    assert_eq!(v, Vec2 { x: 0, y: -1000 });
}

#[test]
fn drive_unit_zero_distance_artifact() {
    // A robot already at its target drives along +x, the image of
    // atan2(0, 0) == 0.
    let u = drive_unit(Vec2 { x: 7, y: 7 }, Vec2 { x: 7, y: 7 });
    assert_eq!(u, Vec2 { x: 1000, y: 0 });
}

#[test]
fn drive_impulse_full_power_along_x() {
    let imp = drive_impulse(Vec2 { x: 0, y: 0 }, Vec2 { x: 50_000, y: 0 }, 255);
    assert_eq!(imp, Vec2 { x: 20_000, y: 0 });
}

#[test]
fn kicker_position_from_rotation_unit() {
    let kp = kicker_position(Vec2 { x: 1000, y: 2000 }, Vec2 { x: 0, y: 1000 });
    assert_eq!(kp, Vec2 { x: 1000, y: 2000 + infos::ROBOT_RADIUS });
}

#[test]
fn kick_in_range_boundary() {
    let kicker = Vec2 { x: 0, y: 0 };
    // Exactly at the configured minimum distance: the kick fires.
    assert!(kick_in_range(kicker, Vec2 { x: infos::DISTANCE_MIN_KICKER_BALL, y: 0 }));
    // One milli-unit beyond: it does not.
    assert!(!kick_in_range(kicker, Vec2 { x: infos::DISTANCE_MIN_KICKER_BALL + 1, y: 0 }));
}

#[test]
fn kick_impulse_along_heading() {
    assert_eq!(kick_impulse(Vec2 { x: 1000, y: 0 }), Vec2 { x: infos::KICK_POWER, y: 0 });
    assert_eq!(kick_impulse(Vec2 { x: 0, y: -1000 }), Vec2 { x: 0, y: -infos::KICK_POWER });
}
