//! A range-mapper unit for a tick-driven simulation host.
//!
//! The unit holds two voltage ranges — a source range A and a target range
//! B, each a (min, max) pair — and on every tick derives the linear scale
//! and offset coefficients mapping each range onto the other, with a fixed
//! identity fallback for non-finite or degenerate ranges and a fixed
//! [-1e6, 1e6] clamp on every output. All scalars cross this boundary as
//! the `u64` bit patterns of IEEE 754 doubles.

pub mod fbits;
pub mod laws;
pub mod unit;

