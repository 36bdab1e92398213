//! A procedural animator: per-tick trigonometric updates for a small set of
//! tagged movable objects, and closed-form generation of the startup scene
//! layout (rings, a helix, a snake of cubes, an undulating column).
//!
//! All quantities are fixed-point numbers: an `i64` counts millionths of the
//! real value, so lengths, angles in radians, and seconds all share one scale.
//! A host renderer converts these to its own number format at the boundary.

pub mod animate;
pub mod fp;
pub mod input;
pub mod layout;
pub mod scene;
pub mod trig;
