//! Integer three-dimensional vectors.
use vstd::prelude::*;

verus! {

/// A velocity or a force, in micrometres per second along each axis.
///
/// The horizontal plane is spanned by `x` (right) and `z` (back); `y` points up.
#[derive(Clone, Copy, Debug, PartialEq, Eq, Structural)]
pub struct Vector {
    pub x: i64,
    pub y: i64,
    pub z: i64,
}

impl Vector {
    /// The vector whose three components are zero.
    pub open spec fn spec_zero() -> Vector {
        Vector { x: 0, y: 0, z: 0 }
    }

    /// Whether every component is zero.
    pub open spec fn is_zero(self) -> bool {
        self.x == 0 && self.y == 0 && self.z == 0
    }

    /// The square of the Euclidean length.
    pub open spec fn norm_sq(self) -> int {
        self.x * self.x + self.y * self.y + self.z * self.z
    }

    pub fn new(x: i64, y: i64, z: i64) -> (r: Vector)
        ensures
            r.x == x && r.y == y && r.z == z,
    {
        Vector { x, y, z }
    }

    pub fn zero() -> (r: Vector)
        ensures
            r == Vector::spec_zero(),
    {
        Vector { x: 0, y: 0, z: 0 }
    }

    /// A vector that points straight up with the given length.
    pub fn up(len: u32) -> (r: Vector)
        ensures
            r.x == 0 && r.y == len && r.z == 0,
    {
        Vector { x: 0, y: len as i64, z: 0 }
    }
}

/// A translation, in picometres along each axis.
///
/// A velocity in micrometres per second held for a number of microseconds
/// gives a translation in picometres, so no rounding is involved.
#[derive(Clone, Copy, Debug, PartialEq, Eq, Structural)]
pub struct Displacement {
    pub x: i128,
    pub y: i128,
    pub z: i128,
}

impl Displacement {
    /// Whether every component is zero.
    pub open spec fn is_zero(self) -> bool {
        self.x == 0 && self.y == 0 && self.z == 0
    }

    pub fn new(x: i128, y: i128, z: i128) -> (r: Displacement)
        ensures
            r.x == x && r.y == y && r.z == z,
    {
        Displacement { x, y, z }
    }

    pub fn zero() -> (r: Displacement)
        ensures
            r.is_zero(),
    {
        Displacement { x: 0, y: 0, z: 0 }
    }

    /// Whether every component is zero.
    pub fn is_stationary(&self) -> (r: bool)
        ensures
            r == self.is_zero(),
    {
        self.x == 0 && self.y == 0 && self.z == 0
    }
}

} // verus!
