//! Directional input and the horizontal movement force it asks for.
use vstd::prelude::*;

use crate::vector::Vector;

verus! {

/// Numerator of a rational just below `1/sqrt(2)`.
pub const DIAGONAL_NUM: u64 = 3166815962;

/// Denominator of a rational just below `1/sqrt(2)`.
///
/// `DIAGONAL_DEN^2 - 2 * DIAGONAL_NUM^2 == 1`, so the ratio undershoots
/// `1/sqrt(2)` by less than `1 / (2 * DIAGONAL_DEN^2)`.
pub const DIAGONAL_DEN: u64 = 4478554083;

/// The four horizontal directions a character can be steered in.
#[derive(Clone, Copy, Debug, PartialEq, Eq, Structural, Hash)]
pub enum CharacterMovement {
    Left,
    Right,
    Back,
    Forward,
}

impl CharacterMovement {
    /// The unit vector of the direction: right is `+x`, back is `+z`.
    pub open spec fn spec_into_vec(self) -> Vector {
        match self {
            CharacterMovement::Right => Vector { x: 1, y: 0, z: 0 },
            CharacterMovement::Left => Vector { x: -1i64, y: 0, z: 0 },
            CharacterMovement::Back => Vector { x: 0, y: 0, z: 1 },
            CharacterMovement::Forward => Vector { x: 0, y: 0, z: -1i64 },
        }
    }

    pub fn into_vec(self) -> (r: Vector)
        ensures
            r == self.spec_into_vec(),
    {
        match self {
            CharacterMovement::Right => Vector::new(1, 0, 0),
            CharacterMovement::Left => Vector::new(-1, 0, 0),
            CharacterMovement::Back => Vector::new(0, 0, 1),
            CharacterMovement::Forward => Vector::new(0, 0, -1),
        }
    }
}

/// Which movement directions are held down during the current frame.
#[derive(Clone, Copy, Debug, PartialEq, Eq, Structural)]
pub struct MovementInput {
    pub left: bool,
    pub right: bool,
    pub back: bool,
    pub forward: bool,
}

/// `+1` when only the positive side is held, `-1` when only the negative one, else `0`.
pub open spec fn axis(negative: bool, positive: bool) -> int {
    (if positive { 1int } else { 0int }) - (if negative { 1int } else { 0int })
}

/// `floor(speed / sqrt(2))`, up to the precision of `DIAGONAL_NUM / DIAGONAL_DEN`.
pub open spec fn diagonal_component(speed: int) -> int {
    speed * DIAGONAL_NUM / DIAGONAL_DEN as int
}

impl MovementInput {
    pub open spec fn spec_pressed(self, dir: CharacterMovement) -> bool {
        match dir {
            CharacterMovement::Left => self.left,
            CharacterMovement::Right => self.right,
            CharacterMovement::Back => self.back,
            CharacterMovement::Forward => self.forward,
        }
    }

    /// Sum of the unit vectors of the held directions, along `x`.
    pub open spec fn dir_x(self) -> int {
        axis(self.left, self.right)
    }

    /// Sum of the unit vectors of the held directions, along `z`.
    pub open spec fn dir_z(self) -> int {
        axis(self.forward, self.back)
    }

    /// The held directions add up to a diagonal.
    pub open spec fn is_diagonal(self) -> bool {
        self.dir_x() != 0 && self.dir_z() != 0
    }

    /// The held directions cancel out (or none is held).
    pub open spec fn is_still(self) -> bool {
        self.dir_x() == 0 && self.dir_z() == 0
    }

    /// The length given to each non-zero component of the movement force.
    pub open spec fn component(self, speed: int) -> int {
        if self.is_diagonal() {
            diagonal_component(speed)
        } else {
            speed
        }
    }

    /// Squared length of the movement force at the given speed.
    pub open spec fn force_norm_sq(self, speed: int) -> int {
        let c = self.component(speed);
        (self.dir_x() * c) * (self.dir_x() * c) + (self.dir_z() * c) * (self.dir_z() * c)
    }

    pub fn none() -> (r: MovementInput)
        ensures
            !r.left && !r.right && !r.back && !r.forward,
    {
        MovementInput { left: false, right: false, back: false, forward: false }
    }

    /// Whether the direction is held down.
    pub fn pressed(&self, dir: CharacterMovement) -> (r: bool)
        ensures
            r == self.spec_pressed(dir),
    {
        match dir {
            CharacterMovement::Left => self.left,
            CharacterMovement::Right => self.right,
            CharacterMovement::Back => self.back,
            CharacterMovement::Forward => self.forward,
        }
    }
}

/// The movement force for the held directions at the given speed.
///
/// Held directions are summed as unit vectors; the sum is then scaled to the
/// speed, so a diagonal is no faster than a straight line.
pub fn movement_force(input: &MovementInput, speed: u32) -> (r: Vector)
    ensures
        r.x == input.dir_x() * input.component(speed as int),
        r.y == 0,
        r.z == input.dir_z() * input.component(speed as int),
{
    let mut sum = Vector::zero();
    if input.pressed(CharacterMovement::Left) {
        let d = CharacterMovement::Left.into_vec();
        sum = Vector::new(sum.x + d.x, 0, sum.z + d.z);
    }
    if input.pressed(CharacterMovement::Right) {
        let d = CharacterMovement::Right.into_vec();
        sum = Vector::new(sum.x + d.x, 0, sum.z + d.z);
    }
    if input.pressed(CharacterMovement::Back) {
        let d = CharacterMovement::Back.into_vec();
        sum = Vector::new(sum.x + d.x, 0, sum.z + d.z);
    }
    if input.pressed(CharacterMovement::Forward) {
        let d = CharacterMovement::Forward.into_vec();
        sum = Vector::new(sum.x + d.x, 0, sum.z + d.z);
    }
    assert(sum.x == input.dir_x() && sum.z == input.dir_z());
    let len: i64 = if sum.x != 0 && sum.z != 0 {
        assert((speed as u64) * DIAGONAL_NUM <= u64::MAX);
        (((speed as u64) * DIAGONAL_NUM) / DIAGONAL_DEN) as i64
    } else {
        speed as i64
    };
    Vector::new(sum.x * len, 0, sum.z * len)
}

proof fn lemma_rational_below_root_half(s: int, c: int, n: int, d: int)
    by (nonlinear_arith)
    requires
        0 <= s < d,
        0 <= n,
        2 * n * n + 1 == d * d,
        0 <= c,
        c * d <= s * n,
        s * n < (c + 1) * d,
    ensures
        2 * c * c <= s * s,
        s * s <= 2 * (c + 1) * (c + 1),
{
    assert(c * d * (c * d) <= s * n * (s * n));
    assert(s * n * (s * n) < (c + 1) * d * ((c + 1) * d));
}

proof fn lemma_diagonal_component(s: int)
    requires
        0 <= s <= u32::MAX,
    ensures
        0 <= diagonal_component(s),
        2 * diagonal_component(s) * diagonal_component(s) <= s * s,
        s * s <= 2 * diagonal_component(s) * diagonal_component(s) + 3 * s + 2,
{
    let n = DIAGONAL_NUM as int;
    let d = DIAGONAL_DEN as int;
    let c = diagonal_component(s);
    assert(2 * n * n + 1 == d * d);
    assert(0 <= c && c * d <= s * n && s * n < (c + 1) * d) by (nonlinear_arith)
        requires
            c == s * n / d,
            d > 0,
            s >= 0,
            n >= 0,
    ;
    lemma_rational_below_root_half(s, c, n, d);
    assert(4 * c <= 3 * s) by (nonlinear_arith)
        requires
            c * d <= s * n,
            4 * n <= 3 * d,
            d > 0,
            s >= 0,
            c >= 0,
    ;
    assert(2 * (c + 1) * (c + 1) == 2 * c * c + 4 * c + 2) by (nonlinear_arith);
}

/// Whatever combination of directions is held, the movement force is never
/// longer than `speed`. A single direction, or three that leave one, gives
/// exactly `speed`; a diagonal gives `speed` up to rounding (its squared length
/// falls short of `speed^2` by at most `3 * speed + 2`, where an unnormalised
/// sum would exceed it by a factor of two); directions that cancel out give zero.
pub proof fn lemma_movement_within_speed(input: MovementInput, speed: u32)
    ensures
        input.force_norm_sq(speed as int) <= speed * speed,
        input.is_still() ==> input.force_norm_sq(speed as int) == 0,
        !input.is_still() && !input.is_diagonal() ==> input.force_norm_sq(speed as int) == speed
            * speed,
        input.is_diagonal() ==> speed * speed <= input.force_norm_sq(speed as int) + 3 * speed + 2,
{
    let s = speed as int;
    let c = input.component(s);
    if input.is_diagonal() {
        lemma_diagonal_component(s);
        assert(input.force_norm_sq(s) == 2 * c * c) by (nonlinear_arith)
            requires
                input.dir_x() == 1 || input.dir_x() == -1,
                input.dir_z() == 1 || input.dir_z() == -1,
                input.force_norm_sq(s) == (input.dir_x() * c) * (input.dir_x() * c) + (
                input.dir_z() * c) * (input.dir_z() * c),
        ;
    } else if input.is_still() {
        assert(input.force_norm_sq(s) == 0) by (nonlinear_arith)
            requires
                input.dir_x() == 0,
                input.dir_z() == 0,
                input.force_norm_sq(s) == (input.dir_x() * c) * (input.dir_x() * c) + (
                input.dir_z() * c) * (input.dir_z() * c),
        ;
    } else {
        assert(input.force_norm_sq(s) == s * s) by (nonlinear_arith)
            requires
                (input.dir_x() == 0 && (input.dir_z() == 1 || input.dir_z() == -1)) || (
                input.dir_z() == 0 && (input.dir_x() == 1 || input.dir_x() == -1)),
                c == s,
                input.force_norm_sq(s) == (input.dir_x() * c) * (input.dir_x() * c) + (
                input.dir_z() * c) * (input.dir_z() * c),
        ;
    }
}

} // verus!
