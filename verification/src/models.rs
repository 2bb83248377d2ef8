//! Client-facing data model: 2D points, movements and the machine profile.
//!
//! Coordinates are integer machine units. Equality of movements is structural,
//! which makes a movement list suitable as a content-addressed cache key.
use vstd::prelude::*;

use crate::gcode::Flavor;

verus! {

/// A 2D point or displacement with two mandatory coordinates.
#[derive(Clone, Copy, Debug, PartialEq, Eq)]
pub struct Vec2D {
    pub x: i64,
    pub y: i64,
}

impl Vec2D {
    /// Componentwise addition.
    pub fn add(self, rhs: Vec2D) -> (r: Vec2D)
        requires
            i64::MIN <= self.x + rhs.x <= i64::MAX,
            i64::MIN <= self.y + rhs.y <= i64::MAX,
        ensures
            r.x == self.x + rhs.x,
            r.y == self.y + rhs.y,
    {
        Vec2D { x: self.x + rhs.x, y: self.y + rhs.y }
    }

    /// Componentwise subtraction.
    pub fn sub(self, rhs: Vec2D) -> (r: Vec2D)
        requires
            i64::MIN <= self.x - rhs.x <= i64::MAX,
            i64::MIN <= self.y - rhs.y <= i64::MAX,
        ensures
            r.x == self.x - rhs.x,
            r.y == self.y - rhs.y,
    {
        Vec2D { x: self.x - rhs.x, y: self.y - rhs.y }
    }
}

impl Default for Vec2D {
    /// The origin.
    fn default() -> (r: Vec2D)
        ensures
            r.x == 0,
            r.y == 0,
    {
        Vec2D { x: 0, y: 0 }
    }
}

/// One client-supplied path segment: a destination and a pen flag.
///
/// A sequence of movements is the unit of a submitted job; it is immutable
/// once created.
#[derive(Clone, Copy, Debug, PartialEq, Eq)]
pub struct Movement {
    pub dest: Vec2D,
    pub pen_down: bool,
}

/// The machine profile the surrounding layers supply: travel dimensions,
/// controller dialect, and the identity and speed of the serial link.
#[derive(Clone, Debug)]
pub struct MachineDetails {
    pub dimensions: Vec2D,
    pub flavor: Flavor,
    pub device: String,
    pub port: String,
    pub baud_rate: u32,
}

} // verus!
