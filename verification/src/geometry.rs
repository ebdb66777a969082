//! Points and directions of the plane.
//!
//! Every coordinate is an IEEE-754 single-precision number, carried as its bit
//! pattern. The rules of the game move coordinates from one place to another
//! and ask whether a direction has zero length; they never do arithmetic on
//! them, so the pattern is all they need, and a point that is moved arrives
//! bit for bit.

use vstd::prelude::*;

verus! {

/// The bit pattern of positive zero.
pub const POSITIVE_ZERO: u32 = 0;

/// The bit pattern of negative zero.
pub const NEGATIVE_ZERO: u32 = 0x8000_0000;

/// The bit pattern of one.
pub const ONE: u32 = 0x3f80_0000;

/// Whether `bits` is the pattern of a zero, of either sign.
pub open spec fn is_zero_bits(bits: u32) -> bool {
    bits == POSITIVE_ZERO || bits == NEGATIVE_ZERO
}

/// A point of the window, in pixels from its top left corner.
#[derive(Clone, Copy, Debug, PartialEq, Eq, Structural)]
pub struct ViewportPoint {
    pub x: u32,
    pub y: u32,
}

/// A point of the scene.
#[derive(Clone, Copy, Debug, PartialEq, Eq, Structural)]
pub struct WorldPoint {
    pub x: u32,
    pub y: u32,
}

/// A direction in the scene: a vector of length one, or the zero vector where
/// there is no direction to speak of.
#[derive(Clone, Copy, Debug, PartialEq, Eq, Structural)]
pub struct Direction {
    pub x: u32,
    pub y: u32,
}

impl WorldPoint {
    /// The origin of the scene.
    pub open spec fn origin() -> WorldPoint {
        WorldPoint { x: POSITIVE_ZERO, y: POSITIVE_ZERO }
    }

    /// The origin of the scene.
    pub fn at_origin() -> (p: WorldPoint)
        ensures
            p == WorldPoint::origin(),
    {
        WorldPoint { x: POSITIVE_ZERO, y: POSITIVE_ZERO }
    }
}

impl Direction {
    /// The reference axis: straight up, the way the player is drawn when it
    /// has not been turned.
    pub open spec fn up() -> Direction {
        Direction { x: POSITIVE_ZERO, y: ONE }
    }

    /// The reference axis.
    pub fn pointing_up() -> (d: Direction)
        ensures
            d == Direction::up(),
            !d.is_zero(),
    {
        Direction { x: POSITIVE_ZERO, y: ONE }
    }

    /// Whether both components are zero, of either sign.
    pub open spec fn is_zero(self) -> bool {
        is_zero_bits(self.x) && is_zero_bits(self.y)
    }

    /// Whether this is the zero vector.
    pub fn is_zero_length(&self) -> (zero: bool)
        ensures
            zero == self.is_zero(),
    {
        let x_is_zero = self.x == POSITIVE_ZERO || self.x == NEGATIVE_ZERO;
        let y_is_zero = self.y == POSITIVE_ZERO || self.y == NEGATIVE_ZERO;
        x_is_zero && y_is_zero
    }
}

} // verus!
