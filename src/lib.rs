//! Locomotion core of a character controller: a movement state machine, a
//! speed resolver, a force accumulator and the step that turns the resulting
//! force into a displacement request for a kinematic collision resolver.
//!
//! All quantities are fixed-point integers. Velocities and forces are in
//! micrometres per second, frame times in microseconds, displacements in
//! picometres (a velocity times a frame time), masses in kilograms.
//!
//! A character starts in `Walk` at speed zero. Frames before the resolver's
//! first report resolve the speed of the active state and request no move.
use vstd::prelude::*;

pub mod camera;
pub mod controller;
pub mod controller_actions;
pub mod controller_movement;
pub mod controller_settings;
pub mod controller_state;
pub mod vector;

pub use camera::{CameraMovement, CameraState, Cycle};
pub use controller::{
    gravity_step, update_action_force, update_gravity_force, update_movement_force,
    update_player_pos, update_player_speed, update_player_state, ControllerView,
    MovementController,
};
pub use controller_actions::{ActionSignal, ActionSignals, CharacterActions};
pub use controller_movement::{movement_force, CharacterMovement, MovementInput};
pub use controller_settings::{ControllerForces, ControllerSpeed, ControllerSpeedSettings};
pub use controller_state::{next_state, speed_for, ControllerState, ResolverFeedback};
pub use vector::{Displacement, Vector};

verus! {

/// The character's locomotion state, under its other name.
pub type CharacterState = ControllerState;

/// A character speed, under its other name.
pub type CharacterSpeed = ControllerSpeed;

/// The controlled character, under its other name.
pub type CharacterMovementController = MovementController;

} // verus!
