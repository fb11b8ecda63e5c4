//! Fixed-point scales and model bounds.
//!
//! A world unit corresponds to one pixel of the scene. Positions,
//! radii and camera coordinates are stored in micro-units (1/1_000_000 of a
//! unit), velocities in milli-units per second (1/1_000 of a unit per
//! second), and frame times in milliseconds. With these scales a
//! displacement is `velocity * delta_millis` micro-units exactly.

use vstd::prelude::*;

verus! {

/// Micro-units per world unit.
pub const MICROS_PER_UNIT: i64 = 1_000_000;

/// Milli-units per world unit (velocity scale).
pub const MILLIS_PER_UNIT: i64 = 1_000;

/// Largest coordinate magnitude the model admits, in micro-units
/// (one billion world units).
pub const MAX_COORD: i64 = 1_000_000_000_000_000;

/// Largest velocity magnitude the model admits, in milli-units per second
/// (one million world units per second).
pub const MAX_VELOCITY: i64 = 1_000_000_000;

/// Largest frame time the model admits, in milliseconds (1000 seconds).
pub const MAX_DELTA_MILLIS: u64 = 1_000_000;

/// Largest camera dimension the model admits, in micro-units
/// (one million world units).
pub const MAX_CAMERA_DIM: u64 = 1_000_000_000_000;

/// Full intensity of a color channel, in per-mille.
pub const PER_MILLE_ONE: u16 = 1_000;

} // verus!
