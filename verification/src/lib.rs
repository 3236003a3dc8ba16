//! A minimal 2D particle physics toy: a particle with position, velocity and
//! radius bounces off the far edges of an axis-aligned rectangle, losing a
//! fixed fraction of its speed on each bounce.
//!
//! Coordinates are exact signed integers, so every contract is exact; a caller
//! that works in fractional world units picks a scale and converts at the
//! boundary.

pub mod engine;
