//! Configuration constants of the arena and the game rules.
//!
//! Lengths are in milli-units (one thousandth of a field unit), angles in
//! microradians, scores and tick counts are plain integers.

use vstd::prelude::*;

verus! {

/// Field extent along the lateral (y) axis, milli-units.
pub const FIELD_WIDTH: i64 = 182_000;
/// Field extent along the goal-to-goal (x) axis, milli-units.
pub const FIELD_DEPTH: i64 = 243_000;
/// Length of each short wall segment bounding a goal mouth, milli-units.
pub const SPACE_BEFORE_LINE_SIDE: i64 = 12_000;
/// Width of each goal mouth, milli-units.
pub const GOAL_WIDTH: i64 = 60_000;
/// Restitution of the field border colliders, milli (1000 = 1.0).
pub const BORDER_RESTITUTION: i64 = 100;
/// Half of `FIELD_WIDTH`, milli-units.
pub const HALF_FIELD_WIDTH: i64 = 91_000;
/// Half of `FIELD_DEPTH`, milli-units.
pub const HALF_FIELD_DEPTH: i64 = 121_500;
/// Half of `GOAL_WIDTH`, milli-units.
pub const HALF_GOAL_WIDTH: i64 = 30_000;
/// Half of `SPACE_BEFORE_LINE_SIDE`, milli-units.
pub const HALF_SPACE_BEFORE_LINE_SIDE: i64 = 6_000;
/// Half thickness of every wall collider, milli-units.
pub const WALL_HALF_THICKNESS: i64 = 500;

/// Kickoff layout: distance of each robot from the field center, x axis.
pub const START_POS_ALIGNED_X: i64 = 25_000;
/// Kickoff layout: distance of each robot from the field center, y axis.
pub const START_POS_ALIGNED_Y: i64 = 25_000;

/// Robot body radius, milli-units.
pub const ROBOT_RADIUS: i64 = 9_000;
/// Robot collider friction, milli.
pub const ROBOT_FRICTION: i64 = 0;
/// Robot linear damping, milli.
pub const ROBOT_LINEAR_DAMPING: i64 = 500;
/// Robot angular damping, milli.
pub const ROBOT_ANGULAR_DAMPING: i64 = 500;
/// Robot collider restitution, milli.
pub const ROBOT_RESTITUTION: i64 = 100;
/// Robot collider mass, milli.
pub const ROBOT_MASS: i64 = 10_000;

/// Ball radius, milli-units.
pub const BALL_RADIUS: i64 = 2_000;
/// Ball collider friction, milli.
pub const BALL_FRICTION: i64 = 0;
/// Ball linear damping, milli.
pub const BALL_LINEAR_DAMPING: i64 = 500;
/// Ball angular damping, milli.
pub const BALL_ANGULAR_DAMPING: i64 = 500;
/// Ball collider restitution, milli.
pub const BALL_RESTITUTION: i64 = 100;
/// Ball collider mass, milli.
pub const BALL_MASS: i64 = 10_000;

/// Minimum number of ticks between two kicks of one robot.
pub const NB_MIN_TICK_BETWEEN_KICKS: u64 = 500;
/// Scale of the eased drive impulse: impulse magnitude at full power,
/// milli-units.
pub const POWER_SPEED: i64 = 20_000;
/// A kick is applied when the kicker contact point is within this distance
/// of the ball, milli-units.
pub const DISTANCE_MIN_KICKER_BALL: i64 = 5_000;
/// Magnitude of the impulse a kick applies to the ball, milli-units.
pub const KICK_POWER: i64 = 75_000;
/// Angular-velocity increment of one rotation nudge, microradians
/// (5 degrees).
pub const ROTATION_SPEED: i64 = 87_266;
/// Bound on the commanded angular velocity, microradians (70 degrees).
pub const ROTATION_MAX_SPEED: i64 = 1_221_730;
/// Dead-zone around the target orientation, microradians (5 degrees).
pub const ROTATION_DELTA: i64 = 87_266;
/// When inside the dead-zone, the angular velocity is decayed by this
/// ratio, milli (900 = 0.9).
pub const ROTATION_AUTO_DECREASE_RATIO: i64 = 900;

} // verus!
