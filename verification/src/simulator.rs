//! The simulator core: the model of the match state and the per-tick
//! pipeline.
//!
//! The simulator owns a fixed-point mirror of every dynamic body
//! (position, rotation, velocities), the entity registry, the cooldown
//! ledger and the referee. A thin driver owns the floating-point
//! rigid-body engine: it feeds validated player decisions into
//! [`Simulator::tick`], applies the actuation commands the model
//! computes, steps the engine, mirrors the resulting body states back via
//! [`Simulator::sync_robot_body`] and [`Simulator::sync_ball_body`], and
//! hands the contact events to [`Simulator::finish_tick`].

use crate::actuation::{
    angle_dist, angle_dist_spec, drive_impulse, drive_impulse_spec, kick_impulse,
    kick_impulse_spec, kick_in_range, kick_in_range_spec, kicker_position, kicker_position_spec,
    next_angvel, next_angvel_spec, Actuation, KickCommand,
};
use crate::field::FieldWallKind;
use crate::fixed::{in_coord_range, Vec2, COORD_LIMIT, HALF_PI_URAD, PI_URAD};
use crate::game_referee::{in_goal_band, lateral_of, GameReferee, RefereeAction};
use crate::infos;
use crate::player_action::{action_fields_valid, CodeReturnValueError, PlayerAction, PlayerInformation};
use crate::registry::{ColliderRole, EntityRegistry};
use crate::robot::{RobotBuilder, RobotHandler};
use vstd::prelude::*;

verus! {

/// The number of robots of one match: two per team.
pub const NUM_ROBOTS: usize = 4;

/// The model's mirror of one rigid body: position and linear velocity in
/// milli-units, rotation in microradians within `[-pi, pi]`, the
/// rotation's unit vector on a milli scale, and the angular velocity in
/// microradians per second.
#[derive(Debug, Clone, Copy, PartialEq, Eq, Structural)]
pub struct BodyState {
    pub position: Vec2,
    pub rotation: i64,
    pub rotation_unit: Vec2,
    pub linvel: Vec2,
    pub angvel: i64,
}

/// Well-formedness of one mirrored body: every quantity within the
/// fixed-point range of the model.
pub open spec fn body_wf(b: BodyState) -> bool {
    &&& in_coord_range(b.position)
    &&& -PI_URAD <= b.rotation <= PI_URAD
    &&& -1000 <= b.rotation_unit.x <= 1000
    &&& -1000 <= b.rotation_unit.y <= 1000
    &&& in_coord_range(b.linvel)
    &&& -1_000_000_000 <= b.angvel <= 1_000_000_000
}

/// The kickoff state of the robot with index `i`: the left side's two
/// robots at negative x facing `pi/2`, the right side's two robots at
/// positive x facing `-pi/2`, all velocities zero.
pub open spec fn kickoff_robot(i: int) -> BodyState {
    BodyState {
        position: Vec2 {
            x: (if i < 2 {
                -infos::START_POS_ALIGNED_X
            } else {
                infos::START_POS_ALIGNED_X as int
            }) as i64,
            y: (if i == 0 || i == 2 {
                -infos::START_POS_ALIGNED_Y
            } else {
                infos::START_POS_ALIGNED_Y as int
            }) as i64,
        },
        rotation: (if i < 2 {
            HALF_PI_URAD as int
        } else {
            -HALF_PI_URAD
        }) as i64,
        rotation_unit: Vec2 {
            x: 0,
            y: (if i < 2 {
                1000
            } else {
                -1000
            }) as i64,
        },
        linvel: Vec2 { x: 0, y: 0 },
        angvel: 0,
    }
}

/// The kickoff state of the ball: at the field center, at rest.
pub open spec fn kickoff_ball() -> BodyState {
    BodyState {
        position: Vec2 { x: 0, y: 0 },
        rotation: 0,
        rotation_unit: Vec2 { x: 1000, y: 0 },
        linvel: Vec2 { x: 0, y: 0 },
        angvel: 0,
    }
}

/// One contact event the physics engine reported: the two collider
/// handles and whether the contact began (`true`) or ended.
#[derive(Debug, Clone, Copy, PartialEq, Eq, Structural)]
pub struct CollisionEvent {
    pub collider1: u64,
    pub collider2: u64,
    pub started: bool,
}

/// The simulator state of one match.
#[derive(Debug)]
pub struct Simulator {
    /// The tick counter, incremented at the start of every tick.
    pub tick_nb: u64,
    /// The referee holding the score pair.
    pub game_referee: GameReferee,
    /// The robot identities, by robot index.
    pub robots: Vec<RobotHandler>,
    /// The cooldown ledger: the tick of the last kick attempt of each
    /// robot, `0` for a robot that never kicked.
    pub last_kick_time: Vec<u64>,
    /// The handle bookkeeping.
    pub registry: EntityRegistry,
    /// The mirrored body state of each robot, by robot index.
    pub robot_bodies: Vec<BodyState>,
    /// The mirrored body state of the ball.
    pub ball_state: BodyState,
}

impl Simulator {
    /// Well-formedness of the whole simulator state.
    pub open spec fn wf(&self) -> bool {
        &&& self.robots@.len() == NUM_ROBOTS
        &&& self.last_kick_time@.len() == NUM_ROBOTS
        &&& self.robot_bodies@.len() == NUM_ROBOTS
        &&& self.registry.wf()
        &&& self.registry.spec_len() == NUM_ROBOTS
        &&& forall|i: int| 0 <= i < NUM_ROBOTS ==> self.last_kick_time@[i] <= self.tick_nb
        &&& forall|i: int| 0 <= i < NUM_ROBOTS ==> body_wf(self.robot_bodies@[i])
        &&& body_wf(self.ball_state)
    }

    /// All five dynamic bodies stand in the kickoff layout.
    pub open spec fn at_kickoff(&self) -> bool {
        &&& forall|i: int| 0 <= i < NUM_ROBOTS ==> self.robot_bodies@[i] == kickoff_robot(i)
        &&& self.ball_state == kickoff_ball()
    }

    /// Build a simulator from the robot configurations and the handles
    /// the physics engine assigned to the bodies and colliders the driver
    /// created. Succeeds exactly when four of everything are given and
    /// the handles are unambiguous; the bodies start in the kickoff
    /// layout, the scores at zero, the ledger at zero.
    pub fn new(
        robots_builders: &Vec<RobotBuilder>,
        robot_body_handles: Vec<u64>,
        robot_collider_handles: Vec<u64>,
        ball_body_handle: u64,
        ball_collider_handle: u64,
        walls: Vec<(u64, FieldWallKind)>,
    ) -> (r: Option<Simulator>)
        requires
            robots_builders@.len() == NUM_ROBOTS,
        ensures
            r matches Some(s) ==> {
                &&& s.wf()
                &&& s.tick_nb == 0
                &&& s.game_referee.score_team_left == 0
                &&& s.game_referee.score_team_right == 0
                &&& forall|i: int| 0 <= i < NUM_ROBOTS ==> s.last_kick_time@[i] == 0
                &&& forall|i: int|
                    0 <= i < NUM_ROBOTS ==> s.robots@[i].spec_team_name()
                        == robots_builders@[i].team_name@ && s.robots@[i].spec_robot_number()
                        == robots_builders@[i].robot_number
                &&& s.at_kickoff()
                &&& s.registry.robot_bodies@ == robot_body_handles@
                &&& s.registry.robot_colliders@ == robot_collider_handles@
                &&& s.registry.ball_body == ball_body_handle
                &&& s.registry.ball_collider == ball_collider_handle
                &&& s.registry.walls@ == walls@
            },
            r is Some <==> robot_body_handles@.len() == NUM_ROBOTS
                && robot_collider_handles@.len() == NUM_ROBOTS && (EntityRegistry {
                robot_bodies: robot_body_handles,
                robot_colliders: robot_collider_handles,
                ball_body: ball_body_handle,
                ball_collider: ball_collider_handle,
                walls,
            }).wf(),
    {
        if robot_body_handles.len() != NUM_ROBOTS || robot_collider_handles.len() != NUM_ROBOTS {
            return None;
        }
        let registry_opt = EntityRegistry::new(
            robot_body_handles,
            robot_collider_handles,
            ball_body_handle,
            ball_collider_handle,
            walls,
        );
        let registry = match registry_opt {
            Some(reg) => reg,
            None => {
                return None;
            },
        };
        let mut robots: Vec<RobotHandler> = Vec::new();
        let mut last_kick_time: Vec<u64> = Vec::new();
        let mut i: usize = 0;
        while i < NUM_ROBOTS
            invariant
                robots_builders@.len() == NUM_ROBOTS,
                i <= NUM_ROBOTS,
                robots@.len() == i,
                last_kick_time@.len() == i,
                forall|j: int|
                    0 <= j < i ==> robots@[j].spec_team_name() == robots_builders@[j].team_name@
                        && robots@[j].spec_robot_number() == robots_builders@[j].robot_number,
                forall|j: int| 0 <= j < i ==> last_kick_time@[j] == 0,
            decreases NUM_ROBOTS - i,
        {
            robots.push(robots_builders[i].to_robot_handle());
            last_kick_time.push(0);
            i = i + 1;
        }
        let mut robot_bodies: Vec<BodyState> = Vec::new();
        let mut j: usize = 0;
        while j < NUM_ROBOTS
            invariant
                j <= NUM_ROBOTS,
                robot_bodies@.len() == j,
                forall|k: int| 0 <= k < j ==> robot_bodies@[k] == kickoff_robot(k),
            decreases NUM_ROBOTS - j,
        {
            robot_bodies.push(kickoff_robot_state(j));
            j = j + 1;
        }
        let sim = Simulator {
            tick_nb: 0,
            game_referee: GameReferee::default(),
            robots,
            last_kick_time,
            registry,
            robot_bodies,
            ball_state: kickoff_ball_state(),
        };
        proof {
            assert forall|k: int| 0 <= k < NUM_ROBOTS implies body_wf(sim.robot_bodies@[k]) by {
                assert(sim.robot_bodies@[k] == kickoff_robot(k));
            }
        }
        Some(sim)
    }

    /// Reset all four robots and the ball to the kickoff layout: zero
    /// velocities, fixed rotations and translations. Scores, tick counter
    /// and cooldown ledger are untouched.
    pub fn new_round(&mut self)
        requires
            old(self).wf(),
        ensures
            final(self).wf(),
            final(self).at_kickoff(),
            final(self).tick_nb == old(self).tick_nb,
            final(self).game_referee == old(self).game_referee,
            final(self).robots@ == old(self).robots@,
            final(self).last_kick_time@ == old(self).last_kick_time@,
            final(self).registry == old(self).registry,
    {
        let mut bodies: Vec<BodyState> = Vec::new();
        let mut i: usize = 0;
        while i < NUM_ROBOTS
            invariant
                i <= NUM_ROBOTS,
                bodies@.len() == i,
                forall|k: int| 0 <= k < i ==> bodies@[k] == kickoff_robot(k),
            decreases NUM_ROBOTS - i,
        {
            bodies.push(kickoff_robot_state(i));
            i = i + 1;
        }
        self.robot_bodies = bodies;
        self.ball_state = kickoff_ball_state();
        proof {
            assert forall|k: int| 0 <= k < NUM_ROBOTS implies body_wf(self.robot_bodies@[k]) by {
                assert(self.robot_bodies@[k] == kickoff_robot(k));
            }
        }
    }

    /// The registry bijection at the simulator level: a robot's body
    /// handle resolves back to that robot alone, so reverse lookup from
    /// the handle of robot `i` yields `i` and no other index.
    pub proof fn lemma_identity_handle_roundtrip(&self, i: int)
        requires
            self.wf(),
            0 <= i < NUM_ROBOTS,
        ensures
            forall|j: int|
                0 <= j < NUM_ROBOTS && self.registry.robot_bodies@[j]
                    == self.registry.robot_bodies@[i] ==> j == i,
    {
        assert forall|j: int|
            0 <= j < NUM_ROBOTS && self.registry.robot_bodies@[j]
                == self.registry.robot_bodies@[i] implies j == i by {
            if j != i {
                self.registry.lemma_registry_bijection(i, j);
            }
        }
    }

    /// The current position of the ball, milli-units.
    pub fn position_of_ball(&self) -> (r: Vec2)
        ensures
            r == self.ball_state.position,
    {
        self.ball_state.position
    }

    /// The index of the robot with the given identity: the first entry
    /// whose team name and number both match, or `None` for an unknown
    /// identity.
    pub fn robot_index_of(&self, robot_handle: &RobotHandler) -> (r: Option<usize>)
        ensures
            r matches Some(i) ==> i < self.robots@.len() && self.robots@[i as int].same_robot(
                robot_handle,
            ) && forall|j: int| 0 <= j < i ==> !self.robots@[j].same_robot(robot_handle),
            r is None ==> forall|j: int|
                0 <= j < self.robots@.len() ==> !self.robots@[j].same_robot(robot_handle),
    {
        let n: usize = self.robots.len();
        let mut i: usize = 0;
        while i < n
            invariant
                n == self.robots@.len(),
                i <= n,
                forall|j: int| 0 <= j < i ==> !self.robots@[j].same_robot(robot_handle),
            decreases n - i,
        {
            if &self.robots[i] == robot_handle {
                return Some(i);
            }
            i = i + 1;
        }
        None
    }

    /// The identity is one of this match's robots.
    pub open spec fn has_robot(&self, robot_handle: RobotHandler) -> bool {
        exists|i: int| 0 <= i < self.robots@.len() && self.robots@[i].same_robot(&robot_handle)
    }

    /// The index of the first robot with this identity.
    pub open spec fn spec_robot_index_of(&self, robot_handle: RobotHandler) -> int {
        choose|i: int|
            0 <= i < self.robots@.len() && self.robots@[i].same_robot(&robot_handle) && forall|
                j: int,
            | 0 <= j < i ==> !self.robots@[j].same_robot(&robot_handle)
    }

    /// The current position of a robot, milli-units. An unknown identity
    /// is a programmer error, ruled out by the precondition.
    pub fn position_of(&self, robot_handle: &RobotHandler) -> (r: Vec2)
        requires
            self.wf(),
            self.has_robot(*robot_handle),
        ensures
            r == self.robot_bodies@[self.spec_robot_index_of(*robot_handle)].position,
    {
        let i = self.robot_index_unwrap(robot_handle);
        self.robot_bodies[i].position
    }

    /// The current rotation of a robot, microradians in `[-pi, pi]`.
    /// An unknown identity is a programmer error, ruled out by the
    /// precondition.
    pub fn rotation_of(&self, robot_handle: &RobotHandler) -> (r: i64)
        requires
            self.wf(),
            self.has_robot(*robot_handle),
        ensures
            r == self.robot_bodies@[self.spec_robot_index_of(*robot_handle)].rotation,
    {
        let i = self.robot_index_unwrap(robot_handle);
        self.robot_bodies[i].rotation
    }

    /// The body handle of a robot. An unknown identity is a programmer
    /// error, ruled out by the precondition.
    pub fn body_handle_of(&self, robot_handle: &RobotHandler) -> (r: u64)
        requires
            self.wf(),
            self.has_robot(*robot_handle),
        ensures
            r == self.registry.robot_bodies@[self.spec_robot_index_of(*robot_handle)],
    {
        let i = self.robot_index_unwrap(robot_handle);
        self.registry.body_handle_of(i)
    }

    /// Resolve a known identity to its robot index.
    fn robot_index_unwrap(&self, robot_handle: &RobotHandler) -> (r: usize)
        requires
            self.wf(),
            self.has_robot(*robot_handle),
        ensures
            r == self.spec_robot_index_of(*robot_handle),
            r < NUM_ROBOTS,
    {
        let found = self.robot_index_of(robot_handle);
        match found {
            Some(i) => i,
            None => {
                proof {
                    assert(false);
                }
                0
            },
        }
    }

    /// Overwrite the mirrored state of one robot body with what the
    /// physics engine holds after a step. Out-of-range quantities are
    /// clamped into the model's fixed-point range.
    pub fn sync_robot_body(&mut self, robot_index: usize, body: BodyState)
        requires
            old(self).wf(),
            robot_index < NUM_ROBOTS,
        ensures
            final(self).wf(),
            final(self).robot_bodies@ == old(self).robot_bodies@.update(
                robot_index as int,
                clamp_body(body),
            ),
            final(self).ball_state == old(self).ball_state,
            final(self).tick_nb == old(self).tick_nb,
            final(self).game_referee == old(self).game_referee,
            final(self).robots@ == old(self).robots@,
            final(self).last_kick_time@ == old(self).last_kick_time@,
            final(self).registry == old(self).registry,
    {
        let clamped = clamp_body_state(body);
        self.robot_bodies.set(robot_index, clamped);
    }

    /// Overwrite the mirrored state of the ball body with what the
    /// physics engine holds after a step. Out-of-range quantities are
    /// clamped into the model's fixed-point range.
    pub fn sync_ball_body(&mut self, body: BodyState)
        requires
            old(self).wf(),
        ensures
            final(self).wf(),
            final(self).ball_state == clamp_body(body),
            final(self).robot_bodies@ == old(self).robot_bodies@,
            final(self).tick_nb == old(self).tick_nb,
            final(self).game_referee == old(self).game_referee,
            final(self).robots@ == old(self).robots@,
            final(self).last_kick_time@ == old(self).last_kick_time@,
            final(self).registry == old(self).registry,
    {
        self.ball_state = clamp_body_state(body);
    }
}

/// The body state `b` with its angular velocity replaced.
pub open spec fn with_angvel(b: BodyState, a: i64) -> BodyState {
    BodyState { angvel: a, ..b }
}

/// The actuation the force/torque translation law computes for one robot
/// from its own body state, the ball position and a validated action:
/// the eased drive impulse toward the target, the next angular velocity
/// of the orientation law, and the kick exactly when the kicker contact
/// point is within range of the ball.
pub open spec fn actuation_spec(body: BodyState, ball: Vec2, action: PlayerAction) -> Actuation {
    let imp = drive_impulse_spec(body.position, action.target_position, action.power);
    let na = next_angvel_spec(
        body.angvel as int,
        angle_dist_spec(body.rotation as int, action.target_orientation as int),
    );
    let kp = kicker_position_spec(body.position, body.rotation_unit);
    let kpv = Vec2 { x: kp.0 as i64, y: kp.1 as i64 };
    let ki = kick_impulse_spec(body.rotation_unit);
    Actuation {
        robot_impulse: Vec2 { x: imp.0 as i64, y: imp.1 as i64 },
        new_angvel: na as i64,
        kick: if kick_in_range_spec(kpv, ball) {
            Some(KickCommand { point: kpv, impulse: Vec2 { x: ki.0 as i64, y: ki.1 as i64 } })
        } else {
            None
        },
    }
}

/// The error entries of the first `n` decisions, in robot order: one
/// entry per failed decision, keyed by the robot's identity.
pub open spec fn error_list_prefix(
    robots: Seq<RobotHandler>,
    decisions: Seq<Result<PlayerAction, CodeReturnValueError>>,
    n: int,
) -> Seq<(RobotHandler, CodeReturnValueError)>
    decreases n,
{
    if n <= 0 {
        Seq::empty()
    } else {
        let pre = error_list_prefix(robots, decisions, n - 1);
        match decisions[n - 1] {
            Result::Err(e) => pre.push((robots[n - 1], e)),
            Result::Ok(_) => pre,
        }
    }
}

impl Simulator {
    /// The world snapshot handed to one robot's control code: its own
    /// position, placeholder teammate and opponent positions, and the
    /// ball position.
    pub fn player_information_for(&self, robot_index: usize) -> (r: PlayerInformation)
        requires
            self.wf(),
            robot_index < NUM_ROBOTS,
        ensures
            r == (PlayerInformation {
                my_position: self.robot_bodies@[robot_index as int].position,
                friend_position: Vec2 { x: 10_000, y: 10_000 },
                enemy1_position: Vec2 { x: 10_000, y: 10_000 },
                enemy2_position: Vec2 { x: 10_000, y: 10_000 },
                ball_position: self.ball_state.position,
            }),
    {
        PlayerInformation {
            my_position: self.robot_bodies[robot_index].position,
            friend_position: Vec2 { x: 10_000, y: 10_000 },
            enemy1_position: Vec2 { x: 10_000, y: 10_000 },
            enemy2_position: Vec2 { x: 10_000, y: 10_000 },
            ball_position: self.ball_state.position,
        }
    }

    /// Translate one validated action into actuation: compute the drive
    /// impulse and the next angular velocity, set the robot's mirrored
    /// angular velocity, advance the robot's cooldown-ledger entry to the
    /// current tick (the cost is paid whether or not the kick fires), and
    /// decide the kick.
    pub fn apply_player_forces(&mut self, robot_index: usize, action: &PlayerAction) -> (r:
        Actuation)
        requires
            old(self).wf(),
            robot_index < NUM_ROBOTS,
            action_fields_valid(action.target_position, action.target_orientation),
        ensures
            final(self).wf(),
            r == actuation_spec(
                old(self).robot_bodies@[robot_index as int],
                old(self).ball_state.position,
                *action,
            ),
            final(self).robot_bodies@ == old(self).robot_bodies@.update(
                robot_index as int,
                with_angvel(old(self).robot_bodies@[robot_index as int], r.new_angvel),
            ),
            final(self).last_kick_time@ == old(self).last_kick_time@.update(
                robot_index as int,
                old(self).tick_nb,
            ),
            final(self).ball_state == old(self).ball_state,
            final(self).tick_nb == old(self).tick_nb,
            final(self).game_referee == old(self).game_referee,
            final(self).robots@ == old(self).robots@,
            final(self).registry == old(self).registry,
    {
        let body: BodyState = self.robot_bodies[robot_index];
        let imp: Vec2 = drive_impulse(body.position, action.target_position, action.power);
        let ad: i64 = angle_dist(body.rotation, action.target_orientation);
        let na: i64 = next_angvel(body.angvel, ad);
        let kp: Vec2 = kicker_position(body.position, body.rotation_unit);
        let kick: Option<KickCommand> = if kick_in_range(kp, self.ball_state.position) {
            Some(KickCommand { point: kp, impulse: kick_impulse(body.rotation_unit) })
        } else {
            None
        };
        let current_tick: u64 = self.tick_nb;
        self.last_kick_time.set(robot_index, current_tick);
        let new_body: BodyState = BodyState {
            position: body.position,
            rotation: body.rotation,
            rotation_unit: body.rotation_unit,
            linvel: body.linvel,
            angvel: na,
        };
        self.robot_bodies.set(robot_index, new_body);
        Actuation { robot_impulse: imp, new_angvel: na, kick }
    }
    /// The decision-and-actuation phase of one tick, strictly ordered:
    /// the tick counter advances, then each robot in index order either
    /// receives its actuation (decision succeeded) or is left untouched
    /// for this tick (decision failed), and the failures are returned as
    /// an error list keyed by robot identity. A single failed decision
    /// never affects the other robots.
    ///
    /// The driver obtains `decisions` by calling each robot's control
    /// code on [`Simulator::player_information_for`], applies the
    /// returned actuations to the physics engine, steps it, mirrors the
    /// body states back, and then calls [`Simulator::finish_tick`] with
    /// the contact events.
    pub fn tick(&mut self, decisions: Vec<Result<PlayerAction, CodeReturnValueError>>) -> (r: (
        Vec<Option<Actuation>>,
        Vec<(RobotHandler, CodeReturnValueError)>,
    ))
        requires
            old(self).wf(),
            decisions@.len() == NUM_ROBOTS,
            old(self).tick_nb < u64::MAX,
            forall|i: int|
                0 <= i < NUM_ROBOTS ==> (#[trigger] decisions@[i] matches Ok(a) ==> action_fields_valid(
                    a.target_position,
                    a.target_orientation,
                )),
        ensures
            final(self).wf(),
            final(self).tick_nb == old(self).tick_nb + 1,
            r.0@.len() == NUM_ROBOTS,
            forall|i: int| 0 <= i < NUM_ROBOTS ==> (r.0@[i] is Some <==> decisions@[i] is Ok),
            forall|i: int|
                0 <= i < NUM_ROBOTS ==> (#[trigger] decisions@[i] matches Ok(a) ==> r.0@[i] == Some(
                    actuation_spec(
                        old(self).robot_bodies@[i],
                        old(self).ball_state.position,
                        a,
                    ),
                ) && final(self).robot_bodies@[i] == with_angvel(
                    old(self).robot_bodies@[i],
                    actuation_spec(
                        old(self).robot_bodies@[i],
                        old(self).ball_state.position,
                        a,
                    ).new_angvel,
                ) && final(self).last_kick_time@[i] == old(self).tick_nb + 1),
            forall|i: int|
                0 <= i < NUM_ROBOTS ==> (#[trigger] decisions@[i] is Err ==> final(self).robot_bodies@[i]
                    == old(self).robot_bodies@[i] && final(self).last_kick_time@[i] == old(self).last_kick_time@[i]),
            forall|i: int|
                0 <= i < NUM_ROBOTS ==> final(self).last_kick_time@[i] >= old(self).last_kick_time@[i],
            r.1@ == error_list_prefix(old(self).robots@, decisions@, NUM_ROBOTS as int),
            final(self).ball_state == old(self).ball_state,
            final(self).game_referee == old(self).game_referee,
            final(self).robots@ == old(self).robots@,
            final(self).registry == old(self).registry,
    {
        self.tick_nb = self.tick_nb + 1;
        let mut rem: Vec<Result<PlayerAction, CodeReturnValueError>> = decisions;
        let mut acts: Vec<Option<Actuation>> = Vec::new();
        let mut errors: Vec<(RobotHandler, CodeReturnValueError)> = Vec::new();
        let mut i: usize = 0;
        while i < NUM_ROBOTS
            invariant
                self.wf(),
                old(self).wf(),
                i <= NUM_ROBOTS,
                rem@ == decisions@.skip(i as int),
                decisions@.len() == NUM_ROBOTS,
                forall|j: int|
                    0 <= j < NUM_ROBOTS ==> (#[trigger] decisions@[j] matches Ok(a) ==> action_fields_valid(
                        a.target_position,
                        a.target_orientation,
                    )),
                acts@.len() == i,
                errors@ == error_list_prefix(old(self).robots@, decisions@, i as int),
                self.tick_nb == old(self).tick_nb + 1,
                self.ball_state == old(self).ball_state,
                self.game_referee == old(self).game_referee,
                self.robots@ == old(self).robots@,
                self.registry == old(self).registry,
                forall|j: int| 0 <= j < i ==> (acts@[j] is Some <==> decisions@[j] is Ok),
                forall|j: int|
                    0 <= j < i ==> (#[trigger] decisions@[j] matches Ok(a) ==> acts@[j] == Some(
                        actuation_spec(
                            old(self).robot_bodies@[j],
                            old(self).ball_state.position,
                            a,
                        ),
                    ) && self.robot_bodies@[j] == with_angvel(
                        old(self).robot_bodies@[j],
                        actuation_spec(
                            old(self).robot_bodies@[j],
                            old(self).ball_state.position,
                            a,
                        ).new_angvel,
                    ) && self.last_kick_time@[j] == old(self).tick_nb + 1),
                forall|j: int|
                    0 <= j < i ==> (#[trigger] decisions@[j] is Err ==> self.robot_bodies@[j] == old(self).robot_bodies@[j] && self.last_kick_time@[j] == old(self).last_kick_time@[j]),
                forall|j: int|
                    i <= j < NUM_ROBOTS ==> self.robot_bodies@[j] == old(self).robot_bodies@[j]
                        && self.last_kick_time@[j] == old(self).last_kick_time@[j],
            decreases NUM_ROBOTS - i,
        {
            let d: Result<PlayerAction, CodeReturnValueError> = rem.remove(0);
            proof {
                assert(decisions@.skip(i as int)[0] == decisions@[i as int]);
                assert(rem@ =~= decisions@.skip(i + 1 as int));
            }
            match d {
                Ok(action) => {
                    let act = self.apply_player_forces(i, &action);
                    acts.push(Some(act));
                },
                Err(e) => {
                    let ident = self.robots[i].clone();
                    errors.push((ident, e));
                    acts.push(None);
                },
            }
            i = i + 1;
        }
        proof {
            assert forall|j: int|
                0 <= j < NUM_ROBOTS implies self.last_kick_time@[j] >= old(self).last_kick_time@[j] by {
                if decisions@[j] is Err {
                } else {
                    assert(decisions@[j] matches Ok(a) ==> self.last_kick_time@[j] == old(self).tick_nb + 1);
                }
            }
        }
        (acts, errors)
    }
}

/// The collider paired with the ball in an event, if the ball is one of
/// the two parties.
pub open spec fn ball_partner(reg: EntityRegistry, ev: CollisionEvent) -> Option<u64> {
    if ev.collider1 == reg.ball_collider {
        Some(ev.collider2)
    } else if ev.collider2 == reg.ball_collider {
        Some(ev.collider1)
    } else {
        None
    }
}

/// The event is a began-contact between the ball and the goal-line
/// (scoring) wall of kind `k`.
pub open spec fn is_ball_goal_line_event(s: Simulator, ev: CollisionEvent, k: FieldWallKind) -> bool {
    &&& ev.started
    &&& (k == FieldWallKind::Left || k == FieldWallKind::Right)
    &&& match ball_partner(s.registry, ev) {
        Some(c) => s.registry.is_wall_with(c, k),
        None => false,
    }
}

/// The event scores a goal on the goal-line of kind `k`: the ball began
/// contact with it while inside the goal-mouth band.
pub open spec fn is_goal_event(s: Simulator, ev: CollisionEvent, k: FieldWallKind) -> bool {
    &&& is_ball_goal_line_event(s, ev, k)
    &&& in_goal_band(
        lateral_of(s.ball_state.position),
        infos::FIELD_WIDTH as int,
        infos::GOAL_WIDTH as int,
    )
}

/// How many of the events score a goal on the goal-line of kind `k`.
pub open spec fn count_goal_events(s: Simulator, events: Seq<CollisionEvent>, k: FieldWallKind) -> int
    decreases events.len(),
{
    if events.len() == 0 {
        0
    } else {
        count_goal_events(s, events.drop_last(), k) + (if is_goal_event(s, events.last(), k) {
            1int
        } else {
            0int
        })
    }
}

impl Simulator {
    /// Classify one contact event. Ended contacts and every pair except
    /// ball-to-goal-line (robot with robot, robot with wall, ball with
    /// robot or a non-scoring wall, and unknown colliders) are
    /// informational only. A began-contact of the ball with the `Left` or
    /// `Right` goal-line is put to the referee, whose verdict is
    /// returned.
    pub fn process_collision(&mut self, collision_event: CollisionEvent) -> (r: Option<
        RefereeAction,
    >)
        requires
            old(self).wf(),
            old(self).game_referee.score_team_left < u32::MAX,
            old(self).game_referee.score_team_right < u32::MAX,
        ensures
            final(self).wf(),
            r is Some <==> is_ball_goal_line_event(*old(self), collision_event, FieldWallKind::Left)
                || is_ball_goal_line_event(*old(self), collision_event, FieldWallKind::Right),
            r == Some(RefereeAction::NewRound) <==> is_goal_event(
                *old(self),
                collision_event,
                FieldWallKind::Left,
            ) || is_goal_event(*old(self), collision_event, FieldWallKind::Right),
            is_goal_event(*old(self), collision_event, FieldWallKind::Left) ==> final(self).game_referee.score_team_left == old(self).game_referee.score_team_left + 1 && final(self).game_referee.score_team_right == old(self).game_referee.score_team_right,
            is_goal_event(*old(self), collision_event, FieldWallKind::Right) ==> final(self).game_referee.score_team_right == old(self).game_referee.score_team_right + 1
                && final(self).game_referee.score_team_left == old(self).game_referee.score_team_left,
            !is_goal_event(*old(self), collision_event, FieldWallKind::Left) && !is_goal_event(
                *old(self),
                collision_event,
                FieldWallKind::Right,
            ) ==> final(self).game_referee == old(self).game_referee,
            final(self).game_referee.score_team_left >= old(self).game_referee.score_team_left,
            final(self).game_referee.score_team_right >= old(self).game_referee.score_team_right,
            final(self).robot_bodies@ == old(self).robot_bodies@,
            final(self).ball_state == old(self).ball_state,
            final(self).tick_nb == old(self).tick_nb,
            final(self).last_kick_time@ == old(self).last_kick_time@,
            final(self).robots@ == old(self).robots@,
            final(self).registry == old(self).registry,
    {
        if !collision_event.started {
            return None;
        }
        let role1: ColliderRole = self.registry.role_of(collision_event.collider1);
        let role2: ColliderRole = self.registry.role_of(collision_event.collider2);
        let wall_opt: Option<FieldWallKind> = if role1 == ColliderRole::Ball {
            match role2 {
                ColliderRole::Wall(k) => Some(k),
                _ => None,
            }
        } else if role2 == ColliderRole::Ball {
            match role1 {
                ColliderRole::Wall(k) => Some(k),
                _ => None,
            }
        } else {
            None
        };
        match wall_opt {
            Some(k) => {
                if k == FieldWallKind::Left || k == FieldWallKind::Right {
                    proof {
                        let ghost s = *old(self);
                        if k == FieldWallKind::Left {
                            if s.registry.is_wall_with(
                                ball_partner(s.registry, collision_event)->Some_0,
                                FieldWallKind::Right,
                            ) {
                                s.registry.lemma_wall_kind_unique(
                                    ball_partner(s.registry, collision_event)->Some_0,
                                    FieldWallKind::Left,
                                    FieldWallKind::Right,
                                );
                            }
                        } else {
                            if s.registry.is_wall_with(
                                ball_partner(s.registry, collision_event)->Some_0,
                                FieldWallKind::Left,
                            ) {
                                s.registry.lemma_wall_kind_unique(
                                    ball_partner(s.registry, collision_event)->Some_0,
                                    FieldWallKind::Right,
                                    FieldWallKind::Left,
                                );
                            }
                        }
                    }
                    let ball_pos: Vec2 = self.ball_state.position;
                    Some(self.game_referee.maybe_goal(&ball_pos, &k))
                } else {
                    proof {
                        let ghost s = *old(self);
                        let ghost c = ball_partner(s.registry, collision_event)->Some_0;
                        if s.registry.is_wall_with(c, FieldWallKind::Left) {
                            s.registry.lemma_wall_kind_unique(c, k, FieldWallKind::Left);
                        }
                        if s.registry.is_wall_with(c, FieldWallKind::Right) {
                            s.registry.lemma_wall_kind_unique(c, k, FieldWallKind::Right);
                        }
                    }
                    None
                }
            },
            None => None,
        }
    }

    /// The event-classification phase of one tick: classify every
    /// drained contact event, let the referee score each ball-to-
    /// goal-line contact, and, if any classification called for a new
    /// round, reset the bodies to the kickoff layout exactly once.
    /// Returns whether a new round started.
    pub fn finish_tick(&mut self, events: &Vec<CollisionEvent>) -> (new_round: bool)
        requires
            old(self).wf(),
            old(self).game_referee.score_team_left + old(self).game_referee.score_team_right
                + events@.len() < u32::MAX,
        ensures
            final(self).wf(),
            new_round <==> exists|i: int|
                0 <= i < events@.len() && (is_goal_event(
                    *old(self),
                    #[trigger] events@[i],
                    FieldWallKind::Left,
                ) || is_goal_event(*old(self), events@[i], FieldWallKind::Right)),
            final(self).game_referee.score_team_left == old(self).game_referee.score_team_left
                + count_goal_events(*old(self), events@, FieldWallKind::Left),
            final(self).game_referee.score_team_right == old(self).game_referee.score_team_right
                + count_goal_events(*old(self), events@, FieldWallKind::Right),
            new_round ==> final(self).at_kickoff(),
            !new_round ==> final(self).robot_bodies@ == old(self).robot_bodies@ && final(self).ball_state == old(self).ball_state,
            final(self).tick_nb == old(self).tick_nb,
            final(self).last_kick_time@ == old(self).last_kick_time@,
            final(self).robots@ == old(self).robots@,
            final(self).registry == old(self).registry,
    {
        let n: usize = events.len();
        let mut found: bool = false;
        let mut i: usize = 0;
        while i < n
            invariant
                self.wf(),
                old(self).wf(),
                n == events@.len(),
                i <= n,
                old(self).game_referee.score_team_left + old(self).game_referee.score_team_right
                    + events@.len() < u32::MAX,
                self.game_referee.score_team_left >= old(self).game_referee.score_team_left,
                self.game_referee.score_team_right >= old(self).game_referee.score_team_right,
                self.game_referee.score_team_left + self.game_referee.score_team_right <= old(self).game_referee.score_team_left + old(self).game_referee.score_team_right + i,
                found <==> exists|j: int|
                    0 <= j < i && (is_goal_event(
                        *old(self),
                        #[trigger] events@[j],
                        FieldWallKind::Left,
                    ) || is_goal_event(*old(self), events@[j], FieldWallKind::Right)),
                self.game_referee.score_team_left == old(self).game_referee.score_team_left
                    + count_goal_events(*old(self), events@.take(i as int), FieldWallKind::Left),
                self.game_referee.score_team_right == old(self).game_referee.score_team_right
                    + count_goal_events(*old(self), events@.take(i as int), FieldWallKind::Right),
                self.robot_bodies@ == old(self).robot_bodies@,
                self.ball_state == old(self).ball_state,
                self.tick_nb == old(self).tick_nb,
                self.last_kick_time@ == old(self).last_kick_time@,
                self.robots@ == old(self).robots@,
                self.registry == old(self).registry,
            decreases n - i,
        {
            let ev: CollisionEvent = events[i];
            let verdict: Option<RefereeAction> = self.process_collision(ev);
            if let Some(RefereeAction::NewRound) = verdict {
                found = true;
            }
            proof {
                assert(events@.take(i + 1 as int).drop_last() =~= events@.take(i as int));
                assert(events@.take(i + 1 as int).last() == events@[i as int]);
            }
            i = i + 1;
        }
        proof {
            assert(events@.take(n as int) =~= events@);
        }
        if found {
            self.new_round();
        }
        found
    }
}

/// A body state clamped into the fixed-point range of the model.
pub open spec fn clamp_body(b: BodyState) -> BodyState {
    BodyState {
        position: Vec2 {
            x: crate::fixed::clamp_spec(b.position.x as int, -COORD_LIMIT, COORD_LIMIT as int) as i64,
            y: crate::fixed::clamp_spec(b.position.y as int, -COORD_LIMIT, COORD_LIMIT as int) as i64,
        },
        rotation: crate::fixed::clamp_spec(b.rotation as int, -PI_URAD, PI_URAD as int) as i64,
        rotation_unit: Vec2 {
            x: crate::fixed::clamp_spec(b.rotation_unit.x as int, -1000, 1000) as i64,
            y: crate::fixed::clamp_spec(b.rotation_unit.y as int, -1000, 1000) as i64,
        },
        linvel: Vec2 {
            x: crate::fixed::clamp_spec(b.linvel.x as int, -COORD_LIMIT, COORD_LIMIT as int) as i64,
            y: crate::fixed::clamp_spec(b.linvel.y as int, -COORD_LIMIT, COORD_LIMIT as int) as i64,
        },
        angvel: crate::fixed::clamp_spec(b.angvel as int, -1_000_000_000, 1_000_000_000) as i64,
    }
}

/// Clamp a body state into the fixed-point range of the model.
fn clamp_body_state(b: BodyState) -> (r: BodyState)
    ensures
        r == clamp_body(b),
        body_wf(r),
{
    BodyState {
        position: Vec2 {
            x: crate::fixed::clamp(b.position.x, -COORD_LIMIT, COORD_LIMIT),
            y: crate::fixed::clamp(b.position.y, -COORD_LIMIT, COORD_LIMIT),
        },
        rotation: crate::fixed::clamp(b.rotation, -PI_URAD, PI_URAD),
        rotation_unit: Vec2 {
            x: crate::fixed::clamp(b.rotation_unit.x, -1000, 1000),
            y: crate::fixed::clamp(b.rotation_unit.y, -1000, 1000),
        },
        linvel: Vec2 {
            x: crate::fixed::clamp(b.linvel.x, -COORD_LIMIT, COORD_LIMIT),
            y: crate::fixed::clamp(b.linvel.y, -COORD_LIMIT, COORD_LIMIT),
        },
        angvel: crate::fixed::clamp(b.angvel, -1_000_000_000, 1_000_000_000),
    }
}

/// The kickoff state of the robot with index `i`, as a value.
fn kickoff_robot_state(i: usize) -> (r: BodyState)
    requires
        i < NUM_ROBOTS,
    ensures
        r == kickoff_robot(i as int),
        body_wf(r),
{
    BodyState {
        position: Vec2 {
            x: if i < 2 {
                -infos::START_POS_ALIGNED_X
            } else {
                infos::START_POS_ALIGNED_X
            },
            y: if i == 0 || i == 2 {
                -infos::START_POS_ALIGNED_Y
            } else {
                infos::START_POS_ALIGNED_Y
            },
        },
        rotation: if i < 2 {
            HALF_PI_URAD
        } else {
            -HALF_PI_URAD
        },
        rotation_unit: Vec2 {
            x: 0,
            y: if i < 2 {
                1000
            } else {
                -1000
            },
        },
        linvel: Vec2 { x: 0, y: 0 },
        angvel: 0,
    }
}

/// The kickoff state of the ball, as a value.
fn kickoff_ball_state() -> (r: BodyState)
    ensures
        r == kickoff_ball(),
        body_wf(r),
{
    BodyState {
        position: Vec2 { x: 0, y: 0 },
        rotation: 0,
        rotation_unit: Vec2 { x: 1000, y: 0 },
        linvel: Vec2 { x: 0, y: 0 },
        angvel: 0,
    }
}

} // verus!
