//! A small entity-component world for a 2D scene: a grid of decorative
//! circles plus one mobile circle, advanced by a per-frame move pass and
//! culled against a following camera by a draw pass.
//!
//! All geometry is fixed-point: positions, radii and camera coordinates are
//! in micro-units (millionths of a world unit), velocities in milli-units
//! per second, frame times in milliseconds. A velocity times a frame time
//! is then exactly a displacement in micro-units, with no rounding.

pub mod units;
pub mod components;
pub mod camera;
pub mod table;
pub mod world;
pub mod draw;
pub mod game;
