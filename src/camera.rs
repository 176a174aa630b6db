//! Camera modes and camera movement directions.
use vstd::prelude::*;

use crate::vector::Vector;

verus! {

/// A finite set of values visited one after another, wrapping around.
pub trait Cycle: Sized {
    /// Number of values in the cycle.
    spec fn cycle_len() -> nat;

    /// Position of the value in the cycle, below `cycle_len()`.
    spec fn position(&self) -> nat;

    /// The value that follows, wrapping from the last back to the first.
    fn next(&self) -> (r: Self)
        ensures
            r.position() == (self.position() + 1) % Self::cycle_len(),
    ;
}

/// The modes of the camera.
#[derive(Clone, Copy, Debug, PartialEq, Eq, Structural, Hash)]
pub enum CameraState {
    /// Free translation and rotation.
    FreeFloat,
    /// Translation only.
    Locked,
    /// Rotation only.
    FirstPerson,
    /// Rotation around a target.
    ThirdPerson,
    /// Moves only while triggered.
    Editor,
}

impl Default for CameraState {
    fn default() -> (r: CameraState)
        ensures
            r == CameraState::FreeFloat,
    {
        CameraState::FreeFloat
    }
}

impl Cycle for CameraState {
    open spec fn cycle_len() -> nat {
        5
    }

    open spec fn position(&self) -> nat {
        match self {
            CameraState::FreeFloat => 0,
            CameraState::Locked => 1,
            CameraState::FirstPerson => 2,
            CameraState::ThirdPerson => 3,
            CameraState::Editor => 4,
        }
    }

    fn next(&self) -> (r: CameraState) {
        match self {
            CameraState::FreeFloat => CameraState::Locked,
            CameraState::Locked => CameraState::FirstPerson,
            CameraState::FirstPerson => CameraState::ThirdPerson,
            CameraState::ThirdPerson => CameraState::Editor,
            CameraState::Editor => CameraState::FreeFloat,
        }
    }
}

/// The directions a free camera can be moved in.
#[derive(Clone, Copy, Debug, PartialEq, Eq, Structural, Hash)]
pub enum CameraMovement {
    Left,
    Right,
    Back,
    Forward,
    Up,
    Down,
}

impl CameraMovement {
    /// The unit vector of the direction: right is `+x`, up is `+y`, back is `+z`.
    pub open spec fn spec_into_vec(self) -> Vector {
        match self {
            CameraMovement::Up => Vector { x: 0, y: 1, z: 0 },
            CameraMovement::Down => Vector { x: 0, y: -1i64, z: 0 },
            CameraMovement::Right => Vector { x: 1, y: 0, z: 0 },
            CameraMovement::Left => Vector { x: -1i64, y: 0, z: 0 },
            CameraMovement::Back => Vector { x: 0, y: 0, z: 1 },
            CameraMovement::Forward => Vector { x: 0, y: 0, z: -1i64 },
        }
    }

    pub fn into_vec(self) -> (r: Vector)
        ensures
            r == self.spec_into_vec(),
    {
        match self {
            CameraMovement::Up => Vector::new(0, 1, 0),
            CameraMovement::Down => Vector::new(0, -1, 0),
            CameraMovement::Right => Vector::new(1, 0, 0),
            CameraMovement::Left => Vector::new(-1, 0, 0),
            CameraMovement::Back => Vector::new(0, 0, 1),
            CameraMovement::Forward => Vector::new(0, 0, -1),
        }
    }
}

} // verus!
