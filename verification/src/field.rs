//! Static field topology: the wall and goal-line segments of the arena.
//!
//! The field is a rectangle centered on the origin. Each goal mouth is a
//! gap of `GOAL_WIDTH` centered on the left/right edge, bounded above and
//! below by two short wall segments; the full-height `Left` and `Right`
//! segments are the goal-line (scoring) planes behind those gaps.

use crate::fixed::Vec2;
use crate::infos;
use vstd::prelude::*;

verus! {

/// The role of one static collider of the arena boundary. Assigned once
/// when the field colliders are built; never changes.
#[derive(Debug, Clone, Copy, PartialEq, Eq, Structural)]
pub enum FieldWallKind {
    Top,
    Bottom,
    Left,
    Right,
    GoalLeftUp,
    GoalLeftDown,
    GoalRightUp,
    GoalRightDown,
}

/// Geometry of one static wall collider: an axis-aligned box given by its
/// center and half-extents, in milli-units, with its restitution in milli.
#[derive(Debug, Clone, Copy, PartialEq, Eq, Structural)]
pub struct WallSpec {
    pub kind: FieldWallKind,
    pub center: Vec2,
    pub half_extents: Vec2,
    pub restitution: i64,
}

/// One wall segment from its kind, center and half-extents.
pub open spec fn wall_at(kind: FieldWallKind, cx: int, cy: int, hx: int, hy: int) -> WallSpec {
    WallSpec {
        kind,
        center: Vec2 { x: cx as i64, y: cy as i64 },
        half_extents: Vec2 { x: hx as i64, y: hy as i64 },
        restitution: infos::BORDER_RESTITUTION,
    }
}

/// The eight wall segments of the arena, in a fixed order.
pub open spec fn field_walls() -> Seq<WallSpec> {
    seq![
        wall_at(
            FieldWallKind::Top,
            0,
            -infos::HALF_FIELD_WIDTH,
            infos::HALF_FIELD_DEPTH as int,
            infos::WALL_HALF_THICKNESS as int,
        ),
        wall_at(
            FieldWallKind::Bottom,
            0,
            infos::HALF_FIELD_WIDTH as int,
            infos::HALF_FIELD_DEPTH as int,
            infos::WALL_HALF_THICKNESS as int,
        ),
        wall_at(
            FieldWallKind::Left,
            -infos::HALF_FIELD_DEPTH,
            0,
            infos::WALL_HALF_THICKNESS as int,
            infos::HALF_FIELD_WIDTH as int,
        ),
        wall_at(
            FieldWallKind::Right,
            infos::HALF_FIELD_DEPTH as int,
            0,
            infos::WALL_HALF_THICKNESS as int,
            infos::HALF_FIELD_WIDTH as int,
        ),
        wall_at(
            FieldWallKind::GoalLeftUp,
            -infos::HALF_FIELD_DEPTH + infos::HALF_SPACE_BEFORE_LINE_SIDE,
            -infos::HALF_GOAL_WIDTH,
            infos::HALF_SPACE_BEFORE_LINE_SIDE as int,
            infos::WALL_HALF_THICKNESS as int,
        ),
        wall_at(
            FieldWallKind::GoalLeftDown,
            -infos::HALF_FIELD_DEPTH + infos::HALF_SPACE_BEFORE_LINE_SIDE,
            infos::HALF_GOAL_WIDTH as int,
            infos::HALF_SPACE_BEFORE_LINE_SIDE as int,
            infos::WALL_HALF_THICKNESS as int,
        ),
        wall_at(
            FieldWallKind::GoalRightUp,
            infos::HALF_FIELD_DEPTH - infos::HALF_SPACE_BEFORE_LINE_SIDE,
            -infos::HALF_GOAL_WIDTH,
            infos::HALF_SPACE_BEFORE_LINE_SIDE as int,
            infos::WALL_HALF_THICKNESS as int,
        ),
        wall_at(
            FieldWallKind::GoalRightDown,
            infos::HALF_FIELD_DEPTH - infos::HALF_SPACE_BEFORE_LINE_SIDE,
            infos::HALF_GOAL_WIDTH as int,
            infos::HALF_SPACE_BEFORE_LINE_SIDE as int,
            infos::WALL_HALF_THICKNESS as int,
        ),
    ]
}

/// Build the eight static wall segments of the arena, tagged with their
/// `FieldWallKind`, in the fixed order of `field_walls`.
pub fn build_field_colliders() -> (r: Vec<WallSpec>)
    ensures
        r@ == field_walls(),
{
    let mut walls: Vec<WallSpec> = Vec::new();
    walls.push(
        WallSpec {
            kind: FieldWallKind::Top,
            center: Vec2 { x: 0, y: -infos::HALF_FIELD_WIDTH },
            half_extents: Vec2 { x: infos::HALF_FIELD_DEPTH, y: infos::WALL_HALF_THICKNESS },
            restitution: infos::BORDER_RESTITUTION,
        },
    );
    walls.push(
        WallSpec {
            kind: FieldWallKind::Bottom,
            center: Vec2 { x: 0, y: infos::HALF_FIELD_WIDTH },
            half_extents: Vec2 { x: infos::HALF_FIELD_DEPTH, y: infos::WALL_HALF_THICKNESS },
            restitution: infos::BORDER_RESTITUTION,
        },
    );
    walls.push(
        WallSpec {
            kind: FieldWallKind::Left,
            center: Vec2 { x: -infos::HALF_FIELD_DEPTH, y: 0 },
            half_extents: Vec2 { x: infos::WALL_HALF_THICKNESS, y: infos::HALF_FIELD_WIDTH },
            restitution: infos::BORDER_RESTITUTION,
        },
    );
    walls.push(
        WallSpec {
            kind: FieldWallKind::Right,
            center: Vec2 { x: infos::HALF_FIELD_DEPTH, y: 0 },
            half_extents: Vec2 { x: infos::WALL_HALF_THICKNESS, y: infos::HALF_FIELD_WIDTH },
            restitution: infos::BORDER_RESTITUTION,
        },
    );
    walls.push(
        WallSpec {
            kind: FieldWallKind::GoalLeftUp,
            center: Vec2 {
                x: -infos::HALF_FIELD_DEPTH + infos::HALF_SPACE_BEFORE_LINE_SIDE,
                y: -infos::HALF_GOAL_WIDTH,
            },
            half_extents: Vec2 { x: infos::HALF_SPACE_BEFORE_LINE_SIDE, y: infos::WALL_HALF_THICKNESS },
            restitution: infos::BORDER_RESTITUTION,
        },
    );
    walls.push(
        WallSpec {
            kind: FieldWallKind::GoalLeftDown,
            center: Vec2 {
                x: -infos::HALF_FIELD_DEPTH + infos::HALF_SPACE_BEFORE_LINE_SIDE,
                y: infos::HALF_GOAL_WIDTH,
            },
            half_extents: Vec2 { x: infos::HALF_SPACE_BEFORE_LINE_SIDE, y: infos::WALL_HALF_THICKNESS },
            restitution: infos::BORDER_RESTITUTION,
        },
    );
    walls.push(
        WallSpec {
            kind: FieldWallKind::GoalRightUp,
            center: Vec2 {
                x: infos::HALF_FIELD_DEPTH - infos::HALF_SPACE_BEFORE_LINE_SIDE,
                y: -infos::HALF_GOAL_WIDTH,
            },
            half_extents: Vec2 { x: infos::HALF_SPACE_BEFORE_LINE_SIDE, y: infos::WALL_HALF_THICKNESS },
            restitution: infos::BORDER_RESTITUTION,
        },
    );
    walls.push(
        WallSpec {
            kind: FieldWallKind::GoalRightDown,
            center: Vec2 {
                x: infos::HALF_FIELD_DEPTH - infos::HALF_SPACE_BEFORE_LINE_SIDE,
                y: infos::HALF_GOAL_WIDTH,
            },
            half_extents: Vec2 { x: infos::HALF_SPACE_BEFORE_LINE_SIDE, y: infos::WALL_HALF_THICKNESS },
            restitution: infos::BORDER_RESTITUTION,
        },
    );
    proof {
        assert(walls@ =~= field_walls());
    }
    walls
}

} // verus!
