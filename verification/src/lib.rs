//! Placement of map files on the shared grid of a world.
//!
//! A world lists map files and, besides explicit entries, patterns: regular
//! expressions whose first two capture groups hold the grid position of a map
//! in its file name. This crate resolves a path against such patterns and
//! computes the placement `capture * multiplier + offset` on each axis, with
//! every overflow of the signed 32-bit range reported as an error.

pub mod error;
pub mod laws;
pub mod number;
pub mod pattern;
pub mod placement;
pub mod regexp;
pub mod transform;
pub mod world;

pub use error::{Axis, Error, Operation};
pub use pattern::WorldPattern;
pub use placement::WorldMap;
pub use regexp::{Captures, CompiledRegex, InvalidRegex};
pub use transform::transform;
pub use world::World;
