//! Speed profile, current speed and the set of forces acting on the character.
use vstd::prelude::*;

use crate::vector::Vector;

verus! {

/// A speed, in micrometres per second. Never negative by construction.
#[derive(Clone, Copy, Debug, PartialEq, Eq, Structural)]
pub struct ControllerSpeed(pub u32);

impl ControllerSpeed {
    pub fn new(speed: u32) -> (r: ControllerSpeed)
        ensures
            r.0 == speed,
    {
        ControllerSpeed(speed)
    }

    pub fn get(&self) -> (r: u32)
        ensures
            r == self.0,
    {
        self.0
    }

    pub fn set(&mut self, speed: u32)
        ensures
            final(self).0 == speed,
    {
        self.0 = speed;
    }
}

/// The named speeds of a character, fixed when it is created.
#[derive(Clone, Copy, Debug, PartialEq, Eq, Structural)]
pub struct ControllerSpeedSettings {
    pub base: ControllerSpeed,
    pub run: ControllerSpeed,
    pub crouch: ControllerSpeed,
    pub slide: ControllerSpeed,
}

impl Default for ControllerSpeedSettings {
    /// Walking at 10 m/s, running at 20 m/s, crouching at 5 m/s, sliding at 25 m/s.
    fn default() -> (r: ControllerSpeedSettings)
        ensures
            r.base.0 == 10_000_000,
            r.run.0 == 20_000_000,
            r.crouch.0 == 5_000_000,
            r.slide.0 == 25_000_000,
    {
        ControllerSpeedSettings {
            base: ControllerSpeed(10_000_000),
            run: ControllerSpeed(20_000_000),
            crouch: ControllerSpeed(5_000_000),
            slide: ControllerSpeed(25_000_000),
        }
    }
}

/// The three contributions whose sum moves the character.
#[derive(Clone, Copy, Debug, PartialEq, Eq, Structural)]
pub struct ControllerForces {
    /// Fall velocity integrated over the consecutive airborne frames.
    pub gravity: Vector,
    /// Push from the held movement directions.
    pub movement: Vector,
    /// Impulse of the current state (a jump, a slide).
    pub actions: Vector,
}

impl ControllerForces {
    /// Sum of the three forces along `x`.
    pub open spec fn resultant_x(self) -> int {
        self.gravity.x + self.movement.x + self.actions.x
    }

    /// Sum of the three forces along `y`.
    pub open spec fn resultant_y(self) -> int {
        self.gravity.y + self.movement.y + self.actions.y
    }

    /// Sum of the three forces along `z`.
    pub open spec fn resultant_z(self) -> int {
        self.gravity.z + self.movement.z + self.actions.z
    }

    /// No force at all.
    pub fn new() -> (r: ControllerForces)
        ensures
            r.gravity.is_zero(),
            r.movement.is_zero(),
            r.actions.is_zero(),
    {
        ControllerForces { gravity: Vector::zero(), movement: Vector::zero(), actions: Vector::zero() }
    }

    pub fn gravity(&self) -> (r: Vector)
        ensures
            r == self.gravity,
    {
        self.gravity
    }

    pub fn movement(&self) -> (r: Vector)
        ensures
            r == self.movement,
    {
        self.movement
    }

    pub fn actions(&self) -> (r: Vector)
        ensures
            r == self.actions,
    {
        self.actions
    }

    pub fn set_gravity(&mut self, gravity: Vector)
        ensures
            final(self).gravity == gravity,
            final(self).movement == old(self).movement,
            final(self).actions == old(self).actions,
    {
        self.gravity = gravity;
    }

    pub fn set_movement(&mut self, movement: Vector)
        ensures
            final(self).gravity == old(self).gravity,
            final(self).movement == movement,
            final(self).actions == old(self).actions,
    {
        self.movement = movement;
    }

    pub fn set_actions(&mut self, actions: Vector)
        ensures
            final(self).gravity == old(self).gravity,
            final(self).movement == old(self).movement,
            final(self).actions == actions,
    {
        self.actions = actions;
    }
}

} // verus!
