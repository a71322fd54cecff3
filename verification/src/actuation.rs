//! The force/torque translation law: how a validated player action
//! becomes physical actuation commands.
//!
//! The linear drive maps the raw power through an ease-in-out quadratic
//! curve and aims an impulse at the target position; the angular drive
//! nudges or decays the angular velocity toward the target orientation
//! under a dead-zone; the kicker applies a fixed impulse to the ball when
//! the kicker contact point is in range.

use crate::fixed::{
    clamp, clamp_spec, dist_sq, dist_sq_spec, in_coord_range, isqrt, scale_milli, sqrt_floor, tdiv,
    wrap_angle, wrap_angle_spec, Vec2, PI_URAD,
};
use crate::infos;
use vstd::arithmetic::div_mod::{lemma_div_is_ordered, lemma_div_multiples_vanish};
use vstd::prelude::*;

verus! {

/// The ease-in-out quadratic curve on a permille scale: the image of
/// `x / 1000` under `2 t^2` below one half and `1 - 2 (1 - t)^2` above,
/// rescaled to `0..=1000`.
pub open spec fn ease_spec(x: int) -> int {
    if x < 500 {
        (x * x) / 500
    } else {
        1000 - ((1000 - x) * (1000 - x)) / 500
    }
}

/// The ease-in-out quadratic throttle curve, on a permille scale.
pub fn ease_in_out_quad(x: u32) -> (r: u32)
    requires
        x <= 1000,
    ensures
        r == ease_spec(x as int),
        r <= 1000,
{
    if x < 500 {
        proof {
            assert(x * x < 250_000) by (nonlinear_arith)
                requires
                    0 <= x < 500,
            ;
            lemma_div_is_ordered((x * x) as int, 250_000, 500);
        }
        (x * x) / 500
    } else {
        let d: u32 = 1000 - x;
        proof {
            assert(d * d <= 250_000) by (nonlinear_arith)
                requires
                    0 <= d <= 500,
            ;
            lemma_div_is_ordered((d * d) as int, 250_000, 500);
        }
        1000 - (d * d) / 500
    }
}

/// The three anchor points of the ease curve: it fixes 0, one half and 1.
pub proof fn lemma_ease_in_out_quad_anchors()
    ensures
        ease_spec(0) == 0,
        ease_spec(500) == 500,
        ease_spec(1000) == 1000,
{
    assert(ease_spec(0) == 0);
    assert(ease_spec(500) == 500);
    assert(ease_spec(1000) == 1000);
}

/// The ease curve is monotonically non-decreasing on `0..=1000`.
pub proof fn lemma_ease_in_out_quad_monotonic(x1: int, x2: int)
    requires
        0 <= x1 <= x2 <= 1000,
    ensures
        ease_spec(x1) <= ease_spec(x2),
{
    if x2 < 500 {
        assert(x1 * x1 <= x2 * x2) by (nonlinear_arith)
            requires
                0 <= x1 <= x2,
        ;
        lemma_div_is_ordered(x1 * x1, x2 * x2, 500);
    } else if x1 >= 500 {
        assert((1000 - x2) * (1000 - x2) <= (1000 - x1) * (1000 - x1)) by (nonlinear_arith)
            requires
                x1 <= x2 <= 1000,
        ;
        lemma_div_is_ordered((1000 - x2) * (1000 - x2), (1000 - x1) * (1000 - x1), 500);
    } else {
        // Across the joint: the lower branch stays below one half, the
        // upper branch stays above it.
        assert(x1 * x1 <= 249_001) by (nonlinear_arith)
            requires
                0 <= x1 <= 499,
        ;
        lemma_div_is_ordered(x1 * x1, 249_001, 500);
        assert(ease_spec(x1) <= 498);
        assert((1000 - x2) * (1000 - x2) <= 250_000) by (nonlinear_arith)
            requires
                500 <= x2 <= 1000,
        ;
        lemma_div_is_ordered((1000 - x2) * (1000 - x2), 250_000, 500);
        assert(ease_spec(x2) >= 500);
    }
}

/// The magnitude of the drive impulse for a raw power: the power on a
/// permille scale, eased, scaled by `POWER_SPEED`.
pub open spec fn drive_magnitude_spec(power: u8) -> int {
    ease_spec((power * 1000) / 255) * (infos::POWER_SPEED / 1000)
}

/// Compute the drive impulse magnitude of a raw power, in milli-units.
pub fn drive_magnitude(power: u8) -> (r: i64)
    ensures
        r == drive_magnitude_spec(power),
        0 <= r <= 20_000,
{
    let permille: u32 = (power as u32) * 1000 / 255;
    proof {
        lemma_div_is_ordered((power * 1000) as int, 255_000, 255);
        lemma_div_multiples_vanish(1000, 255);
    }
    let eased: u32 = ease_in_out_quad(permille);
    (eased as i64) * (infos::POWER_SPEED / 1000)
}

/// The unit vector (on a milli scale) pointing from a body toward its
/// target, rounded toward zero; the vector `(1000, 0)` when the target
/// coincides with the body, matching the zero-angle convention of
/// `atan2(0, 0) == 0`.
pub open spec fn drive_unit_spec(dx: int, dy: int) -> (int, int) {
    let d = sqrt_floor((dx * dx + dy * dy) as nat) as int;
    if d == 0 {
        (1000, 0)
    } else {
        (
            (if dx >= 0 { (dx * 1000) / d } else { -((-dx * 1000) / d) }),
            (if dy >= 0 { (dy * 1000) / d } else { -((-dy * 1000) / d) }),
        )
    }
}

/// Compute the milli-scaled unit vector from `from` toward `to`.
pub fn drive_unit(from: Vec2, to: Vec2) -> (r: Vec2)
    requires
        in_coord_range(from),
        in_coord_range(to),
    ensures
        (r.x as int, r.y as int) == drive_unit_spec(to.x - from.x, to.y - from.y),
        -1000 <= r.x <= 1000,
        -1000 <= r.y <= 1000,
{
    let dx: i64 = to.x - from.x;
    let dy: i64 = to.y - from.y;
    let n: u64 = dist_sq(from, to);
    proof {
        assert(dist_sq_spec(from, to) == dx * dx + dy * dy) by (nonlinear_arith)
            requires
                dx == to.x - from.x,
                dy == to.y - from.y,
        ;
        assert(dx * dx + dy * dy < 9_000_000_000_000_000_000) by (nonlinear_arith)
            requires
                -2_000_000_000 <= dx <= 2_000_000_000,
                -2_000_000_000 <= dy <= 2_000_000_000,
        ;
    }
    let d: u64 = isqrt(n);
    if d == 0 {
        Vec2 { x: 1000, y: 0 }
    } else {
        let ax: u64 = if dx < 0 {
            (-dx) as u64
        } else {
            dx as u64
        };
        let ay: u64 = if dy < 0 {
            (-dy) as u64
        } else {
            dy as u64
        };
        proof {
            assert(ax * ax <= n) by (nonlinear_arith)
                requires
                    n == dx * dx + dy * dy,
                    ax == (if dx >= 0 { dx as int } else { -(dx as int) }),
                    ay == (if dy >= 0 { dy as int } else { -(dy as int) }),
            ;
            assert(ay * ay <= n) by (nonlinear_arith)
                requires
                    n == dx * dx + dy * dy,
                    ax == (if dx >= 0 { dx as int } else { -(dx as int) }),
                    ay == (if dy >= 0 { dy as int } else { -(dy as int) }),
            ;
            crate::fixed::lemma_sqrt_floor_at_least(n as nat, ax as nat);
            crate::fixed::lemma_sqrt_floor_at_least(n as nat, ay as nat);
            assert(ax * 1000 <= d * 1000) by (nonlinear_arith)
                requires
                    ax <= d,
            ;
            assert(ay * 1000 <= d * 1000) by (nonlinear_arith)
                requires
                    ay <= d,
            ;
            lemma_div_is_ordered((ax * 1000) as int, (d * 1000) as int, d as int);
            lemma_div_is_ordered((ay * 1000) as int, (d * 1000) as int, d as int);
            lemma_div_multiples_vanish(1000, d as int);
        }
        let ux: u64 = ax * 1000 / d;
        let uy: u64 = ay * 1000 / d;
        let sx: i64 = if dx < 0 {
            -(ux as i64)
        } else {
            ux as i64
        };
        let sy: i64 = if dy < 0 {
            -(uy as i64)
        } else {
            uy as i64
        };
        Vec2 { x: sx, y: sy }
    }
}

/// The drive impulse: the eased magnitude along the unit vector toward
/// the target.
pub open spec fn drive_impulse_spec(pos: Vec2, target: Vec2, power: u8) -> (int, int) {
    let u = drive_unit_spec(target.x - pos.x, target.y - pos.y);
    let m = drive_magnitude_spec(power);
    (tdiv(m * u.0, 1000), tdiv(m * u.1, 1000))
}

/// Compute the linear drive impulse of one action, in milli-units.
pub fn drive_impulse(pos: Vec2, target: Vec2, power: u8) -> (r: Vec2)
    requires
        in_coord_range(pos),
        in_coord_range(target),
    ensures
        (r.x as int, r.y as int) == drive_impulse_spec(pos, target, power),
        -20_000 <= r.x <= 20_000,
        -20_000 <= r.y <= 20_000,
{
    let m: i64 = drive_magnitude(power);
    let u: Vec2 = drive_unit(pos, target);
    proof {
        assert(-20_000_000 <= m * u.x <= 20_000_000) by (nonlinear_arith)
            requires
                0 <= m <= 20_000,
                -1000 <= u.x <= 1000,
        ;
        assert(-20_000_000 <= m * u.y <= 20_000_000) by (nonlinear_arith)
            requires
                0 <= m <= 20_000,
                -1000 <= u.y <= 1000,
        ;
        if m * u.x >= 0 {
            lemma_div_is_ordered((m * u.x) as int, 20_000_000, 1000);
        } else {
            lemma_div_is_ordered((-(m * u.x)) as int, 20_000_000, 1000);
        }
        if m * u.y >= 0 {
            lemma_div_is_ordered((m * u.y) as int, 20_000_000, 1000);
        } else {
            lemma_div_is_ordered((-(m * u.y)) as int, 20_000_000, 1000);
        }
        lemma_div_multiples_vanish(20_000, 1000);
    }
    let ix: i64 = scale_milli(m, u.x);
    let iy: i64 = scale_milli(m, u.y);
    Vec2 { x: ix, y: iy }
}

/// The wrapped angular distance the rotation law acts on: the shortest
/// signed distance from the current rotation to the target orientation,
/// treated as zero within `ROTATION_DELTA` of the wrap boundary, where
/// the sign is numerically unstable.
pub open spec fn angle_dist_spec(robot_angle: int, target_orientation: int) -> int {
    let w = wrap_angle_spec(robot_angle - target_orientation);
    if w > PI_URAD - infos::ROTATION_DELTA || w < -(PI_URAD - infos::ROTATION_DELTA) {
        0
    } else {
        w
    }
}

/// Compute the guarded wrapped angular distance, in microradians.
pub fn angle_dist(robot_angle: i64, target_orientation: i64) -> (r: i64)
    requires
        -PI_URAD <= robot_angle <= PI_URAD,
        -PI_URAD <= target_orientation <= PI_URAD,
    ensures
        r == angle_dist_spec(robot_angle as int, target_orientation as int),
        -PI_URAD <= r <= PI_URAD - infos::ROTATION_DELTA,
{
    let w: i64 = wrap_angle(robot_angle - target_orientation);
    if w > PI_URAD - infos::ROTATION_DELTA || w < -(PI_URAD - infos::ROTATION_DELTA) {
        0
    } else {
        w
    }
}

/// The direction of the rotation nudge: `0` inside the dead-zone of
/// `ROTATION_DELTA` around the target, else the sign of the distance.
pub open spec fn rotation_sign_spec(angle_dist: int) -> int {
    if angle_dist > infos::ROTATION_DELTA {
        1
    } else if angle_dist < -infos::ROTATION_DELTA {
        -1
    } else {
        0
    }
}

/// Compute the rotation sign of a wrapped angular distance.
pub fn rotation_sign(angle_dist: i64) -> (r: i64)
    requires
        -PI_URAD <= angle_dist <= PI_URAD,
    ensures
        r == rotation_sign_spec(angle_dist as int),
{
    if angle_dist > infos::ROTATION_DELTA {
        1
    } else if angle_dist < -infos::ROTATION_DELTA {
        -1
    } else {
        0
    }
}

/// Inside the dead-zone the rotation sign is zero; just outside it the
/// sign follows the direction of the distance.
pub proof fn lemma_rotation_dead_zone(d: int)
    ensures
        -infos::ROTATION_DELTA <= d <= infos::ROTATION_DELTA ==> rotation_sign_spec(d) == 0,
        d > infos::ROTATION_DELTA ==> rotation_sign_spec(d) == 1,
        d < -infos::ROTATION_DELTA ==> rotation_sign_spec(d) == -1,
{
}

/// The next angular velocity: decayed by `ROTATION_AUTO_DECREASE_RATIO`
/// toward zero when the sign is zero, else nudged by `ROTATION_SPEED` in
/// the sign's direction and clamped to the maximum angular speed.
pub open spec fn next_angvel_spec(angvel: int, angle_dist: int) -> int {
    let s = rotation_sign_spec(angle_dist);
    if s == 0 {
        tdiv(angvel * infos::ROTATION_AUTO_DECREASE_RATIO, 1000)
    } else {
        clamp_spec(
            angvel + s * infos::ROTATION_SPEED,
            -infos::ROTATION_MAX_SPEED as int,
            infos::ROTATION_MAX_SPEED as int,
        )
    }
}

/// Compute the next angular velocity of the angular drive, microradians.
pub fn next_angvel(angvel: i64, angle_dist: i64) -> (r: i64)
    requires
        -1_000_000_000 <= angvel <= 1_000_000_000,
        -PI_URAD <= angle_dist <= PI_URAD,
    ensures
        r == next_angvel_spec(angvel as int, angle_dist as int),
        -1_000_000_000 <= r <= 1_000_000_000,
{
    let s: i64 = rotation_sign(angle_dist);
    if s == 0 {
        proof {
            assert(-1_000_000_000_000 <= angvel * infos::ROTATION_AUTO_DECREASE_RATIO
                <= 1_000_000_000_000) by (nonlinear_arith)
                requires
                    -1_000_000_000 <= angvel <= 1_000_000_000,
            ;
            if angvel >= 0 {
                lemma_div_is_ordered((angvel * infos::ROTATION_AUTO_DECREASE_RATIO) as int,
                    1_000_000_000_000, 1000);
            } else {
                lemma_div_is_ordered((-(angvel * infos::ROTATION_AUTO_DECREASE_RATIO)) as int,
                    1_000_000_000_000, 1000);
            }
            lemma_div_multiples_vanish(1_000_000_000, 1000);
        }
        (angvel * infos::ROTATION_AUTO_DECREASE_RATIO) / 1000
    } else {
        clamp(angvel + s * infos::ROTATION_SPEED, -infos::ROTATION_MAX_SPEED, infos::ROTATION_MAX_SPEED)
    }
}

/// The kicker contact point: the body position advanced by the robot
/// radius along the current rotation's unit vector.
pub open spec fn kicker_position_spec(pos: Vec2, rot_unit: Vec2) -> (int, int) {
    (pos.x + tdiv(infos::ROBOT_RADIUS * rot_unit.x, 1000), pos.y + tdiv(
        infos::ROBOT_RADIUS * rot_unit.y,
        1000,
    ))
}

/// Compute the kicker contact point of a robot body.
pub fn kicker_position(pos: Vec2, rot_unit: Vec2) -> (r: Vec2)
    requires
        in_coord_range(pos),
        -1000 <= rot_unit.x <= 1000,
        -1000 <= rot_unit.y <= 1000,
    ensures
        (r.x as int, r.y as int) == kicker_position_spec(pos, rot_unit),
        -1_000_009_000 <= r.x <= 1_000_009_000,
        -1_000_009_000 <= r.y <= 1_000_009_000,
{
    proof {
        assert(-9_000_000 <= infos::ROBOT_RADIUS * rot_unit.x <= 9_000_000) by (nonlinear_arith)
            requires
                -1000 <= rot_unit.x <= 1000,
                infos::ROBOT_RADIUS == 9_000,
        ;
        assert(-9_000_000 <= infos::ROBOT_RADIUS * rot_unit.y <= 9_000_000) by (nonlinear_arith)
            requires
                -1000 <= rot_unit.y <= 1000,
                infos::ROBOT_RADIUS == 9_000,
        ;
        if infos::ROBOT_RADIUS * rot_unit.x >= 0 {
            lemma_div_is_ordered((infos::ROBOT_RADIUS * rot_unit.x) as int, 9_000_000, 1000);
        } else {
            lemma_div_is_ordered((-(infos::ROBOT_RADIUS * rot_unit.x)) as int, 9_000_000, 1000);
        }
        if infos::ROBOT_RADIUS * rot_unit.y >= 0 {
            lemma_div_is_ordered((infos::ROBOT_RADIUS * rot_unit.y) as int, 9_000_000, 1000);
        } else {
            lemma_div_is_ordered((-(infos::ROBOT_RADIUS * rot_unit.y)) as int, 9_000_000, 1000);
        }
        lemma_div_multiples_vanish(9_000, 1000);
    }
    let ox: i64 = scale_milli(infos::ROBOT_RADIUS, rot_unit.x);
    let oy: i64 = scale_milli(infos::ROBOT_RADIUS, rot_unit.y);
    Vec2 { x: pos.x + ox, y: pos.y + oy }
}

/// The kick range test: the kicker contact point is within
/// `DISTANCE_MIN_KICKER_BALL` of the ball (squared distances compared, so
/// the boundary is exact).
pub open spec fn kick_in_range_spec(kicker: Vec2, ball: Vec2) -> bool {
    dist_sq_spec(kicker, ball) <= infos::DISTANCE_MIN_KICKER_BALL * infos::DISTANCE_MIN_KICKER_BALL
}

/// Decide whether a kick from `kicker` reaches the ball.
pub fn kick_in_range(kicker: Vec2, ball: Vec2) -> (r: bool)
    requires
        -1_100_000_000 <= kicker.x <= 1_100_000_000,
        -1_100_000_000 <= kicker.y <= 1_100_000_000,
        in_coord_range(ball),
    ensures
        r == kick_in_range_spec(kicker, ball),
{
    let dx: i64 = kicker.x - ball.x;
    let dy: i64 = kicker.y - ball.y;
    let ax: u64 = if dx < 0 {
        (-dx) as u64
    } else {
        dx as u64
    };
    let ay: u64 = if dy < 0 {
        (-dy) as u64
    } else {
        dy as u64
    };
    proof {
        assert(ax * ax == dx * dx && ax * ax <= 4_410_000_000_000_000_000) by (nonlinear_arith)
            requires
                ax == (if dx >= 0 { dx as int } else { -(dx as int) }),
                0 <= ax <= 2_100_000_000,
        ;
        assert(ay * ay == dy * dy && ay * ay <= 4_410_000_000_000_000_000) by (nonlinear_arith)
            requires
                ay == (if dy >= 0 { dy as int } else { -(dy as int) }),
                0 <= ay <= 2_100_000_000,
        ;
    }
    let sx: u64 = ax * ax;
    let sy: u64 = ay * ay;
    let min_dist: u64 = infos::DISTANCE_MIN_KICKER_BALL as u64;
    proof {
        assert(min_dist * min_dist == 25_000_000) by (nonlinear_arith)
            requires
                min_dist == 5_000,
        ;
    }
    let threshold: u64 = min_dist * min_dist;
    if sx > threshold {
        false
    } else {
        sx + sy <= threshold
    }
}

/// The impulse a kick applies to the ball: `KICK_POWER` along the
/// robot's rotation unit vector.
pub open spec fn kick_impulse_spec(rot_unit: Vec2) -> (int, int) {
    (tdiv(infos::KICK_POWER * rot_unit.x, 1000), tdiv(infos::KICK_POWER * rot_unit.y, 1000))
}

/// Compute the impulse of a kick along the robot's heading.
pub fn kick_impulse(rot_unit: Vec2) -> (r: Vec2)
    requires
        -1000 <= rot_unit.x <= 1000,
        -1000 <= rot_unit.y <= 1000,
    ensures
        (r.x as int, r.y as int) == kick_impulse_spec(rot_unit),
        -75_000 <= r.x <= 75_000,
        -75_000 <= r.y <= 75_000,
{
    proof {
        assert(-75_000_000 <= infos::KICK_POWER * rot_unit.x <= 75_000_000) by (nonlinear_arith)
            requires
                -1000 <= rot_unit.x <= 1000,
                infos::KICK_POWER == 75_000,
        ;
        assert(-75_000_000 <= infos::KICK_POWER * rot_unit.y <= 75_000_000) by (nonlinear_arith)
            requires
                -1000 <= rot_unit.y <= 1000,
                infos::KICK_POWER == 75_000,
        ;
        if infos::KICK_POWER * rot_unit.x >= 0 {
            lemma_div_is_ordered((infos::KICK_POWER * rot_unit.x) as int, 75_000_000, 1000);
        } else {
            lemma_div_is_ordered((-(infos::KICK_POWER * rot_unit.x)) as int, 75_000_000, 1000);
        }
        if infos::KICK_POWER * rot_unit.y >= 0 {
            lemma_div_is_ordered((infos::KICK_POWER * rot_unit.y) as int, 75_000_000, 1000);
        } else {
            lemma_div_is_ordered((-(infos::KICK_POWER * rot_unit.y)) as int, 75_000_000, 1000);
        }
        lemma_div_multiples_vanish(75_000, 1000);
    }
    let ix: i64 = scale_milli(infos::KICK_POWER, rot_unit.x);
    let iy: i64 = scale_milli(infos::KICK_POWER, rot_unit.y);
    Vec2 { x: ix, y: iy }
}

/// A kick command: a fixed impulse applied to the ball at the kicker
/// contact point.
#[derive(Debug, Clone, Copy, PartialEq, Eq, Structural)]
pub struct KickCommand {
    pub point: Vec2,
    pub impulse: Vec2,
}

/// The physical actuation one robot receives for one tick: a linear
/// impulse on its own body, a new angular velocity, and possibly a kick
/// impulse on the ball.
#[derive(Debug, Clone, Copy, PartialEq, Eq, Structural)]
pub struct Actuation {
    pub robot_impulse: Vec2,
    pub new_angvel: i64,
    pub kick: Option<KickCommand>,
}

} // verus!
