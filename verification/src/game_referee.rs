//! Score keeping and goal detection.
//!
//! The referee owns the score pair and decides, from a ball-to-goal-line
//! contact, whether the match continues or a new round starts. Goal
//! attribution follows one fixed convention: a ball that crosses the
//! `Left` goal-line increments `score_team_left`, a ball that crosses the
//! `Right` goal-line increments `score_team_right`.

use crate::field::FieldWallKind;
use crate::fixed::{in_coord_range, Vec2};
use crate::infos;
use vstd::prelude::*;

verus! {

/// The referee's verdict on one ball-to-goal-line contact: either the
/// match goes on, or a goal was scored and a new round must start.
#[derive(Debug, Clone, Copy, PartialEq, Eq, Structural)]
pub enum RefereeAction {
    ContinueMatch,
    NewRound,
}

/// Holds the match score. Mutated only by goal detection; the scores
/// persist across rounds and are reset only by starting a new match.
#[derive(Debug, Clone)]
pub struct GameReferee {
    pub score_team_left: u32,
    pub score_team_right: u32,
}

impl Default for GameReferee {
    /// A fresh referee: both scores start at zero.
    fn default() -> (r: GameReferee)
        ensures
            r.score_team_left == 0,
            r.score_team_right == 0,
    {
        GameReferee { score_team_left: 0, score_team_right: 0 }
    }
}

/// The goal-mouth band test: the lateral coordinate, measured from the
/// top edge of the field (so it runs over `0..field_width`), lies within
/// the goal mouth centered on `field_width / 2`. The band is half-open:
/// inclusive at its lower bound, exclusive at its upper bound.
pub open spec fn in_goal_band(lateral: int, field_width: int, goal_width: int) -> bool {
    field_width / 2 - goal_width / 2 <= lateral < field_width / 2 + goal_width / 2
}

/// The lateral (edge-based) coordinate of a field position: its y
/// coordinate shifted from the center-based frame of the arena to the
/// `0..FIELD_WIDTH` frame the band test is stated in.
pub open spec fn lateral_of(position: Vec2) -> int {
    position.y + infos::FIELD_WIDTH / 2
}

/// Decide whether `lateral` falls within the goal mouth of a field of
/// width `field_width` with a goal of width `goal_width`.
pub fn lateral_in_goal_band(lateral: i64, field_width: i64, goal_width: i64) -> (r: bool)
    requires
        0 <= goal_width <= field_width <= crate::fixed::COORD_LIMIT,
        -4 * crate::fixed::COORD_LIMIT <= lateral <= 4 * crate::fixed::COORD_LIMIT,
    ensures
        r == in_goal_band(lateral as int, field_width as int, goal_width as int),
{
    let lower: i64 = field_width / 2 - goal_width / 2;
    let upper: i64 = field_width / 2 + goal_width / 2;
    lower <= lateral && lateral < upper
}

impl GameReferee {
    /// Given that the ball touched the `Left` or `Right` goal-line
    /// collider, check whether its lateral coordinate falls within the
    /// goal-mouth band. Inside the band: the convention's team scores one
    /// point and a new round starts. Outside (a defensive case): the match
    /// continues and no score changes.
    pub fn maybe_goal(&mut self, position_of_ball: &Vec2, wall: &FieldWallKind) -> (r:
        RefereeAction)
        requires
            *wall == FieldWallKind::Left || *wall == FieldWallKind::Right,
            in_coord_range(*position_of_ball),
            old(self).score_team_left < u32::MAX,
            old(self).score_team_right < u32::MAX,
        ensures
            r == RefereeAction::NewRound <==> in_goal_band(
                lateral_of(*position_of_ball),
                infos::FIELD_WIDTH as int,
                infos::GOAL_WIDTH as int,
            ),
            r == RefereeAction::NewRound && *wall == FieldWallKind::Left ==> final(self).score_team_left
                == old(self).score_team_left + 1 && final(self).score_team_right == old(self).score_team_right,
            r == RefereeAction::NewRound && *wall == FieldWallKind::Right ==> final(self).score_team_right
                == old(self).score_team_right + 1 && final(self).score_team_left == old(self).score_team_left,
            r == RefereeAction::ContinueMatch ==> *final(self) == *old(self),
            final(self).score_team_left >= old(self).score_team_left,
            final(self).score_team_right >= old(self).score_team_right,
            final(self).score_team_left + final(self).score_team_right <= old(self).score_team_left
                + old(self).score_team_right + 1,
    {
        let lateral: i64 = position_of_ball.y + infos::FIELD_WIDTH / 2;
        if lateral_in_goal_band(lateral, infos::FIELD_WIDTH, infos::GOAL_WIDTH) {
            if *wall == FieldWallKind::Left {
                self.score_team_left = self.score_team_left + 1;
            } else {
                self.score_team_right = self.score_team_right + 1;
            }
            RefereeAction::NewRound
        } else {
            RefereeAction::ContinueMatch
        }
    }
}

} // verus!
