//! A 2D robot-soccer match simulator core.
//!
//! The library holds the deterministic per-tick game logic: translating
//! player decisions into actuation commands under a kicker cooldown and an
//! orientation-control law, classifying contact events against the field
//! topology, scoring goals and resetting rounds, and the registry that ties
//! robot identities to physics-engine handles.
//!
//! All quantities are fixed-point integers: lengths and impulses in
//! thousandths of a field unit ("milli"), angles and angular velocities in
//! microradians ("urad"). A thin driver owns the floating-point rigid-body
//! engine, mirrors its body states into this model, and applies the
//! actuation commands the model computes.

pub mod actuation;
pub mod field;
pub mod fixed;
pub mod game_referee;
pub mod infos;
pub mod player_action;
pub mod registry;
pub mod robot;
pub mod simulator;
