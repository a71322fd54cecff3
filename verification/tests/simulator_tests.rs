//! Tests of the tick pipeline: registry bijection, cooldown ledger,
//! decision-failure isolation, goal handling and the new-round reset.

use soccer_sim::actuation::KickCommand;
use soccer_sim::field::{build_field_colliders, FieldWallKind};
use soccer_sim::fixed::{Vec2, HALF_PI_URAD};
use soccer_sim::infos;
use soccer_sim::player_action::{CodeReturnValueError, PlayerAction};
use soccer_sim::registry::ColliderRole;
use soccer_sim::robot::{RobotBuilder, RobotHandler};
use soccer_sim::simulator::{BodyState, CollisionEvent, Simulator};

const BALL_BODY: u64 = 5;
const BALL_COLLIDER: u64 = 15;
const LEFT_WALL_COLLIDER: u64 = 102;
const RIGHT_WALL_COLLIDER: u64 = 103;
const TOP_WALL_COLLIDER: u64 = 100;

fn make_sim() -> Simulator {
    let builders = vec![
        RobotBuilder::from_basic_robot("A", 1, Vec2 { x: 0, y: 0 }),
        RobotBuilder::from_basic_robot("A", 2, Vec2 { x: 0, y: 0 }),
        RobotBuilder::from_basic_robot("B", 1, Vec2 { x: 0, y: 0 }),
        RobotBuilder::from_basic_robot("B", 2, Vec2 { x: 0, y: 0 }),
    ];
    let walls: Vec<(u64, FieldWallKind)> = build_field_colliders()
        .iter()
        .enumerate()
        .map(|(i, w)| (100 + i as u64, w.kind))
        .collect();
    Simulator::new(&builders, vec![1, 2, 3, 4], vec![11, 12, 13, 14], BALL_BODY, BALL_COLLIDER, walls)
        .expect("registration failed")
}

fn idle_action() -> PlayerAction {
    PlayerAction { target_position: Vec2 { x: 0, y: 0 }, power: 0, target_orientation: 0 }
}

fn missing_field_error() -> CodeReturnValueError {
    CodeReturnValueError::MissingField {
        code_name: "A".to_owned(),
        missing_attribute_name: "power".to_owned(),
        value_returned: "{}".to_owned(),
    }
}

#[test]
fn registry_bijection_roundtrip() {
    let sim = make_sim();
    for (index, handle) in [("A", 1u8, 0usize), ("A", 2, 1), ("B", 1, 2), ("B", 2, 3)]
        .iter()
        .map(|(t, n, i)| (RobotHandler::new(t, *n), *i))
    {
        let body = sim.body_handle_of(&index);
        assert_eq!(body, (handle + 1) as u64);
        let back = sim.registry.robot_of_body(body).expect("body handle not found");
        assert_eq!(back, handle);
        assert_eq!(sim.robots[back], index);
    }
}

#[test]
fn registry_rejects_shared_handles() {
    let builders = vec![
        RobotBuilder::from_basic_robot("A", 1, Vec2 { x: 0, y: 0 }),
        RobotBuilder::from_basic_robot("A", 2, Vec2 { x: 0, y: 0 }),
        RobotBuilder::from_basic_robot("B", 1, Vec2 { x: 0, y: 0 }),
        RobotBuilder::from_basic_robot("B", 2, Vec2 { x: 0, y: 0 }),
    ];
    let walls: Vec<(u64, FieldWallKind)> = build_field_colliders()
        .iter()
        .enumerate()
        .map(|(i, w)| (100 + i as u64, w.kind))
        .collect();
    // Two robots sharing one body handle is a partial registration.
    let sim = Simulator::new(&builders, vec![1, 1, 3, 4], vec![11, 12, 13, 14], 5, 15, walls);
    assert!(sim.is_none());
}

#[test]
fn registry_roles() {
    let sim = make_sim();
    assert_eq!(sim.registry.role_of(11), ColliderRole::Robot(0));
    assert_eq!(sim.registry.role_of(14), ColliderRole::Robot(3));
    assert_eq!(sim.registry.role_of(BALL_COLLIDER), ColliderRole::Ball);
    assert_eq!(sim.registry.role_of(LEFT_WALL_COLLIDER), ColliderRole::Wall(FieldWallKind::Left));
    assert_eq!(sim.registry.role_of(TOP_WALL_COLLIDER), ColliderRole::Wall(FieldWallKind::Top));
    assert_eq!(sim.registry.role_of(999), ColliderRole::Unknown);
}

#[test]
fn new_simulator_starts_at_kickoff() {
    let sim = make_sim();
    assert_eq!(sim.tick_nb, 0);
    assert_eq!(sim.game_referee.score_team_left, 0);
    assert_eq!(sim.game_referee.score_team_right, 0);
    assert_eq!(sim.last_kick_time, vec![0, 0, 0, 0]);
    assert_eq!(
        sim.robot_bodies[0].position,
        Vec2 { x: -infos::START_POS_ALIGNED_X, y: -infos::START_POS_ALIGNED_Y }
    );
    assert_eq!(
        sim.robot_bodies[3].position,
        Vec2 { x: infos::START_POS_ALIGNED_X, y: infos::START_POS_ALIGNED_Y }
    );
    assert_eq!(sim.robot_bodies[0].rotation, HALF_PI_URAD);
    assert_eq!(sim.robot_bodies[2].rotation, -HALF_PI_URAD);
    assert_eq!(sim.position_of_ball(), Vec2 { x: 0, y: 0 });
}

#[test]
fn getters_resolve_identities() {
    let sim = make_sim();
    let b1 = RobotHandler::new("B", 1);
    assert_eq!(
        sim.position_of(&b1),
        Vec2 { x: infos::START_POS_ALIGNED_X, y: -infos::START_POS_ALIGNED_Y }
    );
    assert_eq!(sim.rotation_of(&b1), -HALF_PI_URAD);
    let info = sim.player_information_for(0);
    assert_eq!(
        info.my_position,
        Vec2 { x: -infos::START_POS_ALIGNED_X, y: -infos::START_POS_ALIGNED_Y }
    );
    assert_eq!(info.ball_position, Vec2 { x: 0, y: 0 });
}

#[test]
fn cooldown_ledger_advances_every_successful_tick() {
    let mut sim = make_sim();
    let decisions = vec![
        Ok(idle_action()),
        Ok(idle_action()),
        Ok(idle_action()),
        Ok(idle_action()),
    ];
    sim.tick(decisions);
    assert_eq!(sim.tick_nb, 1);
    assert_eq!(sim.last_kick_time, vec![1, 1, 1, 1]);
    let decisions = vec![
        Ok(idle_action()),
        Err(missing_field_error()),
        Ok(idle_action()),
        Ok(idle_action()),
    ];
    sim.tick(decisions);
    assert_eq!(sim.tick_nb, 2);
    // A failed decision leaves the ledger entry; it never decreases.
    assert_eq!(sim.last_kick_time, vec![2, 1, 2, 2]);
}

#[test]
fn decision_failure_is_isolated() {
    let mut sim = make_sim();
    let decisions = vec![
        Err(missing_field_error()),
        Ok(idle_action()),
        Ok(idle_action()),
        Ok(idle_action()),
    ];
    let (acts, errors) = sim.tick(decisions);
    // Exactly one error entry, keyed to the failing robot.
    assert_eq!(errors.len(), 1);
    assert_eq!(errors[0].0, RobotHandler::new("A", 1));
    assert!(matches!(errors[0].1, CodeReturnValueError::MissingField { .. }));
    // The failing robot received no actuation and its body is untouched.
    assert!(acts[0].is_none());
    assert_eq!(sim.robot_bodies[0].angvel, 0);
    assert_eq!(sim.last_kick_time[0], 0);
    // The other three advanced normally: the idle action's orientation 0
    // is more than the dead-zone away from the kickoff rotation, so each
    // received a rotation nudge.
    for i in 1..4 {
        assert!(acts[i].is_some());
        assert_eq!(sim.robot_bodies[i].angvel.abs(), infos::ROTATION_SPEED);
        assert_eq!(sim.last_kick_time[i], 1);
    }
}

#[test]
fn all_decisions_ok_yields_no_errors() {
    let mut sim = make_sim();
    let decisions = vec![
        Ok(idle_action()),
        Ok(idle_action()),
        Ok(idle_action()),
        Ok(idle_action()),
    ];
    let (acts, errors) = sim.tick(decisions);
    assert!(errors.is_empty());
    assert_eq!(acts.len(), 4);
    assert!(acts.iter().all(|a| a.is_some()));
}

#[test]
fn tick_reports_exact_actuations() {
    let mut sim = make_sim();
    // Robot 0 starts at (-25000, -25000) facing pi/2. Aim straight up at
    // full power while holding the current orientation: the drive
    // impulse is (0, POWER_SPEED), the angular velocity stays decayed at
    // zero, and the ball is far out of kick range.
    let action = PlayerAction {
        target_position: Vec2 { x: -infos::START_POS_ALIGNED_X, y: infos::START_POS_ALIGNED_Y },
        power: 255,
        target_orientation: HALF_PI_URAD,
    };
    let decisions = vec![
        Ok(action),
        Ok(idle_action()),
        Ok(idle_action()),
        Ok(idle_action()),
    ];
    let (acts, _errors) = sim.tick(decisions);
    let act = acts[0].as_ref().expect("successful decision must actuate");
    assert_eq!(act.robot_impulse, Vec2 { x: 0, y: infos::POWER_SPEED });
    assert_eq!(act.new_angvel, 0);
    assert!(act.kick.is_none());
}

#[test]
fn goal_event_scores_and_resets() {
    let mut sim = make_sim();
    // Move a robot off kickoff so that the reset is observable.
    sim.sync_robot_body(
        0,
        BodyState {
            position: Vec2 { x: 40_000, y: 1_000 },
            rotation: 0,
            rotation_unit: Vec2 { x: 1000, y: 0 },
            linvel: Vec2 { x: 5_000, y: 0 },
            angvel: 77,
        },
    );
    // The ball at center height is inside the goal band.
    let events = vec![CollisionEvent {
        collider1: BALL_COLLIDER,
        collider2: LEFT_WALL_COLLIDER,
        started: true,
    }];
    let new_round = sim.finish_tick(&events);
    assert!(new_round);
    assert_eq!(sim.game_referee.score_team_left, 1);
    assert_eq!(sim.game_referee.score_team_right, 0);
    // All bodies are back at the kickoff layout with zero velocities;
    // the reset itself changed no score, tick or ledger.
    for (i, body) in sim.robot_bodies.iter().enumerate() {
        assert_eq!(body.linvel, Vec2 { x: 0, y: 0 });
        assert_eq!(body.angvel, 0);
        let expected_x = if i < 2 { -infos::START_POS_ALIGNED_X } else { infos::START_POS_ALIGNED_X };
        let expected_y =
            if i % 2 == 0 { -infos::START_POS_ALIGNED_Y } else { infos::START_POS_ALIGNED_Y };
        assert_eq!(body.position, Vec2 { x: expected_x, y: expected_y });
        let expected_rot = if i < 2 { HALF_PI_URAD } else { -HALF_PI_URAD };
        assert_eq!(body.rotation, expected_rot);
    }
    assert_eq!(sim.ball_state.position, Vec2 { x: 0, y: 0 });
    assert_eq!(sim.ball_state.linvel, Vec2 { x: 0, y: 0 });
    assert_eq!(sim.tick_nb, 0);
    assert_eq!(sim.last_kick_time, vec![0, 0, 0, 0]);
}

#[test]
fn goal_outside_band_does_not_score() {
    let mut sim = make_sim();
    // Put the ball outside the goal-mouth band.
    let mut ball = sim.ball_state;
    ball.position = Vec2 { x: -120_000, y: infos::HALF_GOAL_WIDTH + 5_000 };
    sim.sync_ball_body(ball);
    let events = vec![CollisionEvent {
        collider1: BALL_COLLIDER,
        collider2: LEFT_WALL_COLLIDER,
        started: true,
    }];
    let new_round = sim.finish_tick(&events);
    assert!(!new_round);
    assert_eq!(sim.game_referee.score_team_left, 0);
    assert_eq!(sim.game_referee.score_team_right, 0);
}

#[test]
fn non_goal_events_are_informational() {
    let mut sim = make_sim();
    let events = vec![
        // Robot with robot.
        CollisionEvent { collider1: 11, collider2: 12, started: true },
        // Robot with a wall.
        CollisionEvent { collider1: 13, collider2: TOP_WALL_COLLIDER, started: true },
        // Ball with a robot.
        CollisionEvent { collider1: BALL_COLLIDER, collider2: 11, started: true },
        // Ball with a non-scoring wall.
        CollisionEvent { collider1: BALL_COLLIDER, collider2: TOP_WALL_COLLIDER, started: true },
        // Unknown pair.
        CollisionEvent { collider1: 777, collider2: 888, started: true },
        // An ended ball-goal-line contact is ignored.
        CollisionEvent { collider1: BALL_COLLIDER, collider2: LEFT_WALL_COLLIDER, started: false },
    ];
    let new_round = sim.finish_tick(&events);
    assert!(!new_round);
    assert_eq!(sim.game_referee.score_team_left, 0);
    assert_eq!(sim.game_referee.score_team_right, 0);
}

#[test]
fn two_goals_in_one_tick_reset_once_and_both_count() {
    let mut sim = make_sim();
    let events = vec![
        CollisionEvent { collider1: BALL_COLLIDER, collider2: LEFT_WALL_COLLIDER, started: true },
        CollisionEvent { collider1: RIGHT_WALL_COLLIDER, collider2: BALL_COLLIDER, started: true },
    ];
    let new_round = sim.finish_tick(&events);
    assert!(new_round);
    assert_eq!(sim.game_referee.score_team_left, 1);
    assert_eq!(sim.game_referee.score_team_right, 1);
}

#[test]
fn kick_fires_exactly_at_minimum_distance() {
    let mut sim = make_sim();
    // Robot 0 at kickoff faces +y, so its kicker contact point is
    // ROBOT_RADIUS above its center.
    let kicker = Vec2 {
        x: -infos::START_POS_ALIGNED_X,
        y: -infos::START_POS_ALIGNED_Y + infos::ROBOT_RADIUS,
    };
    let mut ball = sim.ball_state;
    ball.position = Vec2 { x: kicker.x + infos::DISTANCE_MIN_KICKER_BALL, y: kicker.y };
    sim.sync_ball_body(ball);
    let act = sim.apply_player_forces(0, &idle_action());
    match act.kick {
        Some(KickCommand { point, impulse }) => {
            assert_eq!(point, kicker);
            assert_eq!(impulse, Vec2 { x: 0, y: infos::KICK_POWER });
        },
        None => panic!("kick expected at exactly the minimum distance"),
    }
}

#[test]
fn kick_does_not_fire_just_out_of_range() {
    let mut sim = make_sim();
    let kicker = Vec2 {
        x: -infos::START_POS_ALIGNED_X,
        y: -infos::START_POS_ALIGNED_Y + infos::ROBOT_RADIUS,
    };
    let mut ball = sim.ball_state;
    ball.position = Vec2 { x: kicker.x + infos::DISTANCE_MIN_KICKER_BALL + 1, y: kicker.y };
    sim.sync_ball_body(ball);
    let act = sim.apply_player_forces(0, &idle_action());
    assert!(act.kick.is_none());
    // The cooldown cost is paid even though the kick did not fire.
    assert_eq!(sim.last_kick_time[0], sim.tick_nb);
}

#[test]
fn sync_clamps_out_of_range_states() {
    let mut sim = make_sim();
    sim.sync_ball_body(BodyState {
        position: Vec2 { x: i64::MAX, y: -i64::MAX },
        rotation: i64::MAX,
        rotation_unit: Vec2 { x: 5_000, y: -5_000 },
        linvel: Vec2 { x: 0, y: 0 },
        angvel: i64::MAX,
    });
    assert_eq!(sim.ball_state.position.x, 1_000_000_000);
    assert_eq!(sim.ball_state.position.y, -1_000_000_000);
    assert_eq!(sim.ball_state.rotation_unit, Vec2 { x: 1000, y: -1000 });
    assert_eq!(sim.ball_state.angvel, 1_000_000_000);
}
