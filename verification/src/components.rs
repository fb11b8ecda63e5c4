//! The component records an entity can carry, and the per-frame time
//! resource.

use vstd::prelude::*;
use crate::units::{MAX_COORD, MAX_VELOCITY, PER_MILLE_ONE};

verus! {

/// World-space position of an entity, in micro-units.
#[derive(Clone, Copy, PartialEq, Eq, Structural, Debug)]
pub struct Location {
    pub x: i64,
    pub y: i64,
}

impl Location {
    /// Both coordinates lie within the model's coordinate range.
    pub open spec fn wf(self) -> bool {
        &&& -MAX_COORD <= self.x <= MAX_COORD
        &&& -MAX_COORD <= self.y <= MAX_COORD
    }

    pub fn new(x: i64, y: i64) -> (r: Location)
        ensures
            r == (Location { x, y }),
    {
        Location { x, y }
    }
}

/// Draw radius of an entity, in micro-units.
#[derive(Clone, Copy, PartialEq, Eq, Structural, Debug)]
pub struct Size {
    pub radius: i64,
}

impl Size {
    pub fn new(radius: i64) -> (r: Size)
        ensures
            r == (Size { radius }),
    {
        Size { radius }
    }
}

/// Fill color of an entity: red, green, blue, alpha, each in per-mille
/// (0 is none, 1000 is full intensity).
#[derive(Clone, Copy, PartialEq, Eq, Structural, Debug)]
pub struct Color {
    pub red: u16,
    pub green: u16,
    pub blue: u16,
    pub alpha: u16,
}

impl Color {
    /// Every channel stays within the per-mille range.
    pub open spec fn wf(self) -> bool {
        &&& self.red <= PER_MILLE_ONE
        &&& self.green <= PER_MILLE_ONE
        &&& self.blue <= PER_MILLE_ONE
        &&& self.alpha <= PER_MILLE_ONE
    }

    pub fn new(red: u16, green: u16, blue: u16, alpha: u16) -> (r: Color)
        ensures
            r == (Color { red, green, blue, alpha }),
    {
        Color { red, green, blue, alpha }
    }
}

/// Velocity of an entity, in milli-units per second; each frame it adds
/// `velocity * delta_millis` micro-units to the entity's location.
#[derive(Clone, Copy, PartialEq, Eq, Structural, Debug)]
pub struct Velocity {
    pub x: i64,
    pub y: i64,
}

impl Velocity {
    /// Both components lie within the model's velocity range.
    pub open spec fn wf(self) -> bool {
        &&& -MAX_VELOCITY <= self.x <= MAX_VELOCITY
        &&& -MAX_VELOCITY <= self.y <= MAX_VELOCITY
    }

    pub fn new(x: i64, y: i64) -> (r: Velocity)
        ensures
            r == (Velocity { x, y }),
    {
        Velocity { x, y }
    }
}

/// Time elapsed since the previous frame, in milliseconds; overwritten
/// every frame before the move pass runs.
#[derive(Clone, Copy, PartialEq, Eq, Structural, Debug)]
pub struct DeltaTime {
    pub millis: u64,
}

} // verus!
