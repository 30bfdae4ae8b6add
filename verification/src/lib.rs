//! A deterministic gravitational N-body simulator on fixed-point
//! (scaled-integer) arithmetic.
//!
//! Bodies carry a mass and a 2-D position and velocity, all stored as 64-bit
//! integers scaled by [`state::PRECISION`]. The system is advanced through
//! discrete time steps by a 4th-order Runge-Kutta integrator whose every
//! arithmetic step is pinned down exactly: additions and multiplications wrap
//! on 64 bits, divisions truncate toward zero. Identical inputs therefore
//! always produce bit-identical outputs, which the token-identifier derivation
//! in [`token`] depends on.

pub mod arith;
pub mod dynamics;
pub mod laws;
pub mod sqrt;
pub mod state;
pub mod token;
