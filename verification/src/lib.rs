//! The float-free core of a small artificial-life simulation: the random
//! walk's choice of direction, the rewind timeline that records snapshots and
//! lets a paused user scrub through them, and the layout of the reference grid.
//!
//! Positions, camera and clock are floating point and live with the caller;
//! everything here works on integers, booleans and an opaque state type.

pub mod grid;
pub mod timeline;
pub mod walk;
