//! Fixed-point 2D collision detection and response for axis-aligned boxes,
//! plus the small bookkeeping rules of the greeting demo.
//!
//! All lengths, positions and velocities are integers in caller-chosen units.
//! Friction coefficients are expressed in thousandths (`1000` stands for 1.0).
pub mod body;
pub mod friction;
pub mod geometry;
pub mod people;
pub mod resolve;
pub mod step;
