//! The entities of the arena: balls and paddles.

use vstd::prelude::*;

verus! {

/// A point or a displacement in coordinate units.
#[derive(Clone, Copy, Debug, PartialEq, Eq, Structural)]
pub struct Vec2 {
    pub x: i64,
    pub y: i64,
}

/// The side of the arena on which a paddle stands.
#[derive(Clone, Copy, Debug, PartialEq, Eq, Structural)]
pub enum Side {
    Left,
    Right,
}

/// A ball: its centre, its velocity in coordinate units per millisecond, and its radius.
#[derive(Clone, Copy, Debug, PartialEq, Eq, Structural)]
pub struct Ball {
    pub position: Vec2,
    pub velocity: Vec2,
    pub radius: i64,
}

/// A paddle: its side, its size, and the position of its centre.
#[derive(Clone, Copy, Debug, PartialEq, Eq, Structural)]
pub struct Paddle {
    pub side: Side,
    pub width: i64,
    pub height: i64,
    pub position: Vec2,
}

impl Ball {
    /// The radius is not negative, and each velocity component can be negated.
    pub open spec fn wf(self) -> bool {
        &&& self.radius >= 0
        &&& self.velocity.x > i64::MIN
        &&& self.velocity.y > i64::MIN
    }
}

impl Paddle {
    /// Width and height are not negative.
    pub open spec fn wf(self) -> bool {
        self.width >= 0 && self.height >= 0
    }
}

} // verus!
