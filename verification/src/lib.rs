//! Verified decision logic for cross-platform game-state synchronisation.
//!
//! Positions and velocities are IEEE-754 binary64 values. The library works on
//! their bit patterns: it decides whether a lattice tolerance is usable and
//! whether the states that several platforms reached are bit-for-bit equal.

pub mod float_bits;
pub mod world;
