//! Robot identities and the per-robot configuration used at match setup.

use crate::fixed::Vec2;
use crate::infos;
use vstd::prelude::*;

verus! {

/// The stable identity of one robot: its team's name and its number within
/// the team. Created once at match configuration and never mutated.
#[derive(Debug)]
pub struct RobotHandler {
    team_name: String,
    robot_number: u8,
}

impl Clone for RobotHandler {
    /// A clone is the same identity.
    fn clone(&self) -> (r: RobotHandler)
        ensures
            r == *self,
    {
        RobotHandler { team_name: self.team_name.clone(), robot_number: self.robot_number }
    }
}

impl RobotHandler {
    /// The team name of this robot.
    pub closed spec fn spec_team_name(&self) -> Seq<char> {
        self.team_name@
    }

    /// The number of this robot within its team.
    pub closed spec fn spec_robot_number(&self) -> u8 {
        self.robot_number
    }

    /// Two identities are the same robot when both fields agree.
    pub open spec fn same_robot(&self, other: &RobotHandler) -> bool {
        self.spec_team_name() == other.spec_team_name() && self.spec_robot_number()
            == other.spec_robot_number()
    }

    /// Build an identity from a team name and a robot number.
    pub fn new(team_name: &str, robot_number: u8) -> (r: RobotHandler)
        ensures
            r.spec_team_name() == team_name@,
            r.spec_robot_number() == robot_number,
    {
        RobotHandler { team_name: team_name.to_owned(), robot_number }
    }

    /// The team name of this robot.
    pub fn team_name(&self) -> (r: &str)
        ensures
            r@ == self.spec_team_name(),
    {
        self.team_name.as_str()
    }

    /// The number of this robot within its team.
    pub fn robot_number(&self) -> (r: u8)
        ensures
            r == self.spec_robot_number(),
    {
        self.robot_number
    }
}

impl PartialEq for RobotHandler {
    /// Identities compare by value: team name and robot number.
    fn eq(&self, other: &RobotHandler) -> (r: bool)
        ensures
            r == self.same_robot(other),
    {
        self.team_name == other.team_name && self.robot_number == other.robot_number
    }
}

impl vstd::std_specs::cmp::PartialEqSpecImpl for RobotHandler {
    open spec fn obeys_eq_spec() -> bool {
        true
    }

    open spec fn eq_spec(&self, other: &RobotHandler) -> bool {
        self.same_robot(other)
    }
}

impl Eq for RobotHandler {

}

/// Physical configuration of one robot at match setup. Lengths and masses
/// are fixed-point milli values.
#[derive(Debug, Clone)]
pub struct RobotBuilder {
    pub team_name: String,
    pub robot_number: u8,
    pub initial_position: Vec2,
    pub friction: i64,
    pub linear_damping: i64,
    pub angular_damping: i64,
    pub restitution: i64,
    pub mass: i64,
    pub radius: i64,
}

impl RobotBuilder {
    /// The identity of the robot this builder configures.
    pub fn to_robot_handle(&self) -> (r: RobotHandler)
        ensures
            r.spec_team_name() == self.team_name@,
            r.spec_robot_number() == self.robot_number,
    {
        RobotHandler { team_name: self.team_name.clone(), robot_number: self.robot_number }
    }

    /// A builder with the default robot physical constants.
    pub fn from_basic_robot(team_name: &str, robot_number: u8, initial_position: Vec2) -> (r:
        RobotBuilder)
        ensures
            r.team_name@ == team_name@,
            r.robot_number == robot_number,
            r.initial_position == initial_position,
            r.friction == infos::ROBOT_FRICTION,
            r.linear_damping == infos::ROBOT_LINEAR_DAMPING,
            r.angular_damping == infos::ROBOT_ANGULAR_DAMPING,
            r.restitution == infos::ROBOT_RESTITUTION,
            r.mass == infos::ROBOT_MASS,
            r.radius == infos::ROBOT_RADIUS,
    {
        RobotBuilder {
            team_name: team_name.to_owned(),
            robot_number,
            initial_position,
            friction: infos::ROBOT_FRICTION,
            linear_damping: infos::ROBOT_LINEAR_DAMPING,
            angular_damping: infos::ROBOT_ANGULAR_DAMPING,
            restitution: infos::ROBOT_RESTITUTION,
            mass: infos::ROBOT_MASS,
            radius: infos::ROBOT_RADIUS,
        }
    }
}

} // verus!
