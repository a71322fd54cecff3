//! Tests of goal detection, the score rules, the action validation and
//! the field topology.

use soccer_sim::field::{build_field_colliders, FieldWallKind};
use soccer_sim::fixed::{Vec2, PI_URAD};
use soccer_sim::game_referee::{GameReferee, RefereeAction};
use soccer_sim::infos;
use soccer_sim::player_action::{module_name_of, CodeReturnValueError, PlayerAction};

fn fresh_referee() -> GameReferee {
    GameReferee { score_team_left: 0, score_team_right: 0 }
}

#[test]
fn goal_in_band_left_scores_left() {
    let mut referee = fresh_referee();
    // Ball at field center height: lateral = FIELD_WIDTH / 2, inside the band.
    let action = referee.maybe_goal(&Vec2 { x: -121_000, y: 0 }, &FieldWallKind::Left);
    assert_eq!(action, RefereeAction::NewRound);
    assert_eq!(referee.score_team_left, 1);
    assert_eq!(referee.score_team_right, 0);
}

#[test]
fn goal_in_band_right_scores_right() {
    let mut referee = fresh_referee();
    let action = referee.maybe_goal(&Vec2 { x: 121_000, y: 0 }, &FieldWallKind::Right);
    assert_eq!(action, RefereeAction::NewRound);
    assert_eq!(referee.score_team_left, 0);
    assert_eq!(referee.score_team_right, 1);
}

#[test]
fn goal_band_lower_boundary_inclusive() {
    let mut referee = fresh_referee();
    // lateral = FIELD_WIDTH/2 - GOAL_WIDTH/2 exactly: y = -GOAL_WIDTH/2.
    let action = referee.maybe_goal(
        &Vec2 { x: -121_000, y: -infos::HALF_GOAL_WIDTH },
        &FieldWallKind::Left,
    );
    assert_eq!(action, RefereeAction::NewRound);
    assert_eq!(referee.score_team_left, 1);
}

#[test]
fn goal_band_upper_boundary_exclusive() {
    let mut referee = fresh_referee();
    // lateral = FIELD_WIDTH/2 + GOAL_WIDTH/2 exactly: excluded.
    let action = referee.maybe_goal(
        &Vec2 { x: -121_000, y: infos::HALF_GOAL_WIDTH },
        &FieldWallKind::Left,
    );
    assert_eq!(action, RefereeAction::ContinueMatch);
    assert_eq!(referee.score_team_left, 0);
    assert_eq!(referee.score_team_right, 0);
}

#[test]
fn goal_band_just_inside_upper_boundary() {
    let mut referee = fresh_referee();
    let action = referee.maybe_goal(
        &Vec2 { x: -121_000, y: infos::HALF_GOAL_WIDTH - 1 },
        &FieldWallKind::Left,
    );
    assert_eq!(action, RefereeAction::NewRound);
}

#[test]
fn ball_outside_band_continues_match() {
    let mut referee = fresh_referee();
    let action = referee.maybe_goal(
        &Vec2 { x: -121_000, y: -infos::HALF_GOAL_WIDTH - 1 },
        &FieldWallKind::Right,
    );
    assert_eq!(action, RefereeAction::ContinueMatch);
    assert_eq!(referee.score_team_left, 0);
    assert_eq!(referee.score_team_right, 0);
}

#[test]
fn score_changes_by_exactly_one_per_goal() {
    let mut referee = fresh_referee();
    referee.maybe_goal(&Vec2 { x: 0, y: 0 }, &FieldWallKind::Left);
    assert_eq!((referee.score_team_left, referee.score_team_right), (1, 0));
    referee.maybe_goal(&Vec2 { x: 0, y: 0 }, &FieldWallKind::Right);
    assert_eq!((referee.score_team_left, referee.score_team_right), (1, 1));
    referee.maybe_goal(&Vec2 { x: 0, y: 0 }, &FieldWallKind::Left);
    assert_eq!((referee.score_team_left, referee.score_team_right), (2, 1));
}

#[test]
fn validate_accepts_action_in_range() {
    let r = PlayerAction::validate("team", Vec2 { x: 5_000, y: -5_000 }, 200, PI_URAD);
    let action = r.expect("valid action rejected");
    assert_eq!(action.target_position, Vec2 { x: 5_000, y: -5_000 });
    assert_eq!(action.power, 200);
    assert_eq!(action.target_orientation, PI_URAD);
}

#[test]
fn validate_rejects_orientation_out_of_range() {
    let r = PlayerAction::validate("team", Vec2 { x: 0, y: 0 }, 1, PI_URAD + 1);
    match r {
        Err(CodeReturnValueError::InvalidType { code_name, field_name, .. }) => {
            assert_eq!(code_name, "team");
            assert_eq!(field_name, "target_orientation");
        },
        other => panic!("expected an InvalidType error, got {:?}", other),
    }
}

#[test]
fn validate_rejects_position_out_of_range() {
    let r = PlayerAction::validate("team", Vec2 { x: 2_000_000_000, y: 0 }, 1, 0);
    match r {
        Err(CodeReturnValueError::InvalidType { field_name, .. }) => {
            assert_eq!(field_name, "target_position");
        },
        other => panic!("expected an InvalidType error, got {:?}", other),
    }
}

fn module_name(s: &str) -> String {
    let chars: Vec<char> = s.chars().collect();
    module_name_of(&chars).into_iter().collect()
}

#[test]
fn module_name_strips_py_suffix() {
    assert_eq!(module_name("player.py"), "player");
    assert_eq!(module_name("a.py.py"), "a.py");
    assert_eq!(module_name(".py"), "");
}

#[test]
fn module_name_replaces_dots_otherwise() {
    assert_eq!(module_name("my.bot.txt"), "my_bot_txt");
    assert_eq!(module_name("bot"), "bot");
    assert_eq!(module_name("py"), "py");
}

#[test]
fn field_has_eight_walls_in_order() {
    let walls = build_field_colliders();
    assert_eq!(walls.len(), 8);
    let kinds: Vec<FieldWallKind> = walls.iter().map(|w| w.kind).collect();
    assert_eq!(
        kinds,
        vec![
            FieldWallKind::Top,
            FieldWallKind::Bottom,
            FieldWallKind::Left,
            FieldWallKind::Right,
            FieldWallKind::GoalLeftUp,
            FieldWallKind::GoalLeftDown,
            FieldWallKind::GoalRightUp,
            FieldWallKind::GoalRightDown,
        ]
    );
}

#[test]
fn field_wall_geometry() {
    let walls = build_field_colliders();
    // The top wall spans the field depth at the top edge.
    assert_eq!(walls[0].center, Vec2 { x: 0, y: -infos::HALF_FIELD_WIDTH });
    assert_eq!(walls[0].half_extents, Vec2 { x: infos::HALF_FIELD_DEPTH, y: 500 });
    // The left goal-line spans the field width at the left edge.
    assert_eq!(walls[2].center, Vec2 { x: -infos::HALF_FIELD_DEPTH, y: 0 });
    assert_eq!(walls[2].half_extents, Vec2 { x: 500, y: infos::HALF_FIELD_WIDTH });
    // The short goal-mouth segments sit at half the goal width.
    assert_eq!(
        walls[4].center,
        Vec2 {
            x: -infos::HALF_FIELD_DEPTH + infos::HALF_SPACE_BEFORE_LINE_SIDE,
            y: -infos::HALF_GOAL_WIDTH
        }
    );
    for w in walls.iter() {
        assert_eq!(w.restitution, infos::BORDER_RESTITUTION);
    }
}
