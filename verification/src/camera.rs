//! The camera resource: the rectangular world-space region currently
//! visible, defined by an origin and a fixed width and height.

use vstd::prelude::*;
use crate::components::Location;
use crate::units::{MAX_CAMERA_DIM, MAX_COORD, MICROS_PER_UNIT};

verus! {

/// Viewport origin and dimensions, in micro-units. The move pass re-derives
/// the origin each frame so the viewport stays centered on the tracked
/// entity; the dimensions never change.
#[derive(Clone, Copy, PartialEq, Eq, Structural, Debug)]
pub struct Camera {
    pub x: i64,
    pub y: i64,
    pub width: u64,
    pub height: u64,
}

impl Camera {
    /// The dimensions are positive and bounded, and the origin cannot lie
    /// farther from zero than a bounded coordinate shifted by half a
    /// viewport.
    pub open spec fn wf(self) -> bool {
        &&& 0 < self.width <= MAX_CAMERA_DIM
        &&& 0 < self.height <= MAX_CAMERA_DIM
        &&& -MAX_COORD - MAX_CAMERA_DIM <= self.x <= MAX_COORD
        &&& -MAX_COORD - MAX_CAMERA_DIM <= self.y <= MAX_COORD
    }

    /// The camera whose viewport of the given dimensions is centered on
    /// the given location: its origin is the location shifted by half a
    /// viewport on each axis.
    pub open spec fn spec_following(loc: Location, width: u64, height: u64) -> Camera {
        Camera {
            x: (loc.x - width as int / 2) as i64,
            y: (loc.y - height as int / 2) as i64,
            width,
            height,
        }
    }

    /// A camera at the origin with a 1024 x 768 unit viewport.
    pub open spec fn spec_initial() -> Camera {
        Camera {
            x: 0,
            y: 0,
            width: (1024 * MICROS_PER_UNIT) as u64,
            height: (768 * MICROS_PER_UNIT) as u64,
        }
    }

    /// A camera at the origin with a 1024 x 768 unit viewport.
    pub fn new() -> (r: Camera)
        ensures
            r == Camera::spec_initial(),
            r.wf(),
    {
        Camera {
            x: 0,
            y: 0,
            width: (1024 * MICROS_PER_UNIT) as u64,
            height: (768 * MICROS_PER_UNIT) as u64,
        }
    }

    /// The location lies in the half-open viewport rectangle
    /// `[x, x + width) x [y, y + height)`: the near edges are inside, the
    /// far edges are not.
    pub open spec fn contains(self, loc: Location) -> bool {
        &&& self.x <= loc.x
        &&& loc.x < self.x + self.width
        &&& self.y <= loc.y
        &&& loc.y < self.y + self.height
    }

    /// Re-centers the viewport on `loc`, keeping the dimensions.
    pub fn follow(&mut self, loc: Location)
        requires
            old(self).wf(),
            loc.wf(),
        ensures
            *final(self) == Camera::spec_following(loc, old(self).width, old(self).height),
            final(self).wf(),
    {
        self.x = loc.x - (self.width / 2) as i64;
        self.y = loc.y - (self.height / 2) as i64;
    }
}

} // verus!
