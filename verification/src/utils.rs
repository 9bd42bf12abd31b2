//! Frame counting, facing, cardinal directions, and entity lifetimes.

use vstd::prelude::*;

use crate::math::{absi, Vec2};

verus! {

/// Simulation frames are counted in whole ticks.
pub type FrameNumber = u32;

/// Ticks spent in the current fighter state; reset to 0 on every transition.
#[derive(Clone, Copy, Debug, PartialEq, Eq, Structural)]
pub struct FrameCount(pub FrameNumber);

/// The side a fighter faces.
#[derive(Clone, Copy, Debug, PartialEq, Eq, Structural)]
pub enum LeftRight {
    Left,
    Right,
}

impl Default for LeftRight {
    fn default() -> (r: Self)
        ensures
            r == LeftRight::Right,
    {
        LeftRight::Right
    }
}

impl LeftRight {
    /// The spec-level mirror of `flip`.
    pub open spec fn flip_spec(self) -> Self {
        match self {
            LeftRight::Left => LeftRight::Right,
            LeftRight::Right => LeftRight::Left,
        }
    }

    pub fn flip(&self) -> (r: Self)
        ensures
            r == self.flip_spec(),
    {
        match self {
            LeftRight::Left => LeftRight::Right,
            LeftRight::Right => LeftRight::Left,
        }
    }

    /// The spec-level mirror of `get_sign`.
    pub open spec fn sign_spec(self) -> int {
        match self {
            LeftRight::Left => -1,
            LeftRight::Right => 1,
        }
    }

    /// -1 for left, +1 for right, in whole fixed-point steps.
    pub fn get_sign(&self) -> (r: i64)
        ensures
            r == self.sign_spec(),
    {
        match self {
            LeftRight::Left => -1,
            LeftRight::Right => 1,
        }
    }
}

/// One of the four stick directions.
#[derive(Clone, Copy, Debug, PartialEq, Eq, Structural)]
pub enum CardinalDirection {
    Up,
    Right,
    Left,
    Down,
}

impl CardinalDirection {
    pub open spec fn flip_spec(self) -> Self {
        match self {
            CardinalDirection::Up => CardinalDirection::Down,
            CardinalDirection::Down => CardinalDirection::Up,
            CardinalDirection::Left => CardinalDirection::Right,
            CardinalDirection::Right => CardinalDirection::Left,
        }
    }

    pub fn flip(&self) -> (r: Self)
        ensures
            r == self.flip_spec(),
    {
        match self {
            CardinalDirection::Up => CardinalDirection::Down,
            CardinalDirection::Down => CardinalDirection::Up,
            CardinalDirection::Left => CardinalDirection::Right,
            CardinalDirection::Right => CardinalDirection::Left,
        }
    }

    pub open spec fn horizontal_spec(self) -> Option<LeftRight> {
        match self {
            CardinalDirection::Left => Some(LeftRight::Left),
            CardinalDirection::Right => Some(LeftRight::Right),
            _ => None,
        }
    }

    /// The sideways component of the direction, if any.
    pub fn horizontal(&self) -> (r: Option<LeftRight>)
        ensures
            r == self.horizontal_spec(),
    {
        match self {
            CardinalDirection::Left => Some(LeftRight::Left),
            CardinalDirection::Right => Some(LeftRight::Right),
            _ => None,
        }
    }

    pub fn is_horizontal(&self) -> (r: bool)
        ensures
            r == self.horizontal_spec() is Some,
    {
        self.horizontal().is_some()
    }

    /// Whether this direction points to the given side.
    pub fn is_side(&self, side: LeftRight) -> (r: bool)
        ensures
            r == (self.horizontal_spec() == Some(side)),
    {
        match self {
            CardinalDirection::Left => side == LeftRight::Left,
            CardinalDirection::Right => side == LeftRight::Right,
            _ => false,
        }
    }
}

/// The dominant cardinal direction of a vector: `None` at the origin,
/// vertical when |y| strictly exceeds |x|, otherwise horizontal.
pub open spec fn cardinal_of(v: Vec2) -> Option<CardinalDirection> {
    if v.is_zero() {
        None
    } else if absi(v.y as int) > absi(v.x as int) {
        if v.y > 0 {
            Some(CardinalDirection::Up)
        } else {
            Some(CardinalDirection::Down)
        }
    } else if v.x > 0 {
        Some(CardinalDirection::Right)
    } else {
        Some(CardinalDirection::Left)
    }
}

/// Things with a dominant stick direction.
pub trait Directed {
    fn get_cardinal_direction(&self) -> Option<CardinalDirection>;
}

impl Directed for Vec2 {
    fn get_cardinal_direction(&self) -> (r: Option<CardinalDirection>)
        ensures
            r == cardinal_of(*self),
    {
        if self.x == 0 && self.y == 0 {
            return None;
        }
        let ax = crate::math::abs64(self.x);
        let ay = crate::math::abs64(self.y);
        if ay > ax {
            if self.y > 0 {
                Some(CardinalDirection::Up)
            } else {
                Some(CardinalDirection::Down)
            }
        } else if self.x > 0 {
            Some(CardinalDirection::Right)
        } else {
            Some(CardinalDirection::Left)
        }
    }
}

/// The side a fighter currently faces.
#[derive(Clone, Copy, Debug, PartialEq, Eq, Structural)]
pub struct Facing(pub LeftRight);

/// Remaining frames before a transient entity (a projectile) despawns.
#[derive(Clone, Copy, Debug, PartialEq, Eq, Structural)]
pub struct Lifetime(pub FrameNumber);

impl Lifetime {
    /// Counts one frame down; the result says whether the entity is spent.
    pub fn decrement(&mut self) -> (despawn: bool)
        requires
            old(self).0 > 0,
        ensures
            final(self).0 == old(self).0 - 1,
            despawn == (final(self).0 == 0),
    {
        self.0 = self.0 - 1;
        self.0 == 0
    }
}

} // verus!
