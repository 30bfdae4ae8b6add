//! The per-body state and the small, fixed set of pointwise operations the
//! integrator combines states with.
//!
//! A body is a mass and a 2-D position and velocity, every field a 64-bit
//! integer scaled by [`PRECISION`]. The mass doubles as the body's identity
//! within a system: force accumulation skips every body whose mass equals the
//! probe body's, so masses within one system must be pairwise distinct for
//! all interactions to be felt.
//!
//! Each operation applies one arithmetic step to the four motion fields
//! (`x`, `y`, `vel_x`, `vel_y`) and carries the left operand's mass through
//! unchanged.

use vstd::prelude::*;

use crate::arith::div_i64;
use crate::arith::tdiv64;
use crate::arith::wadd;
use crate::arith::wmul;

verus! {

/// Fixed-point scale: a stored integer `v` stands for the real value
/// `v / PRECISION`.
pub const PRECISION: i64 = 100000000;

/// One simulated point mass with 2-D position and velocity, all fixed-point
/// scaled by [`PRECISION`].
#[derive(Clone, Copy, Debug, PartialEq, Eq, Structural)]
pub struct MotionState {
    pub mass: u64,
    pub x: i64,
    pub y: i64,
    pub vel_x: i64,
    pub vel_y: i64,
}

/// Every motion field multiplied by `dt` and divided by [`PRECISION`]
/// (truncating): the scaling applied to each Runge-Kutta stage.
pub open spec fn spec_scaled(b: MotionState, dt: i64) -> MotionState {
    MotionState {
        mass: b.mass,
        x: tdiv64(wmul(b.x, dt), PRECISION),
        y: tdiv64(wmul(b.y, dt), PRECISION),
        vel_x: tdiv64(wmul(b.vel_x, dt), PRECISION),
        vel_y: tdiv64(wmul(b.vel_y, dt), PRECISION),
    }
}

/// Pointwise `self + k / 2`: the half-step stage input.
pub open spec fn spec_plus_half(b: MotionState, k: MotionState) -> MotionState {
    MotionState {
        mass: b.mass,
        x: wadd(b.x, tdiv64(k.x, 2)),
        y: wadd(b.y, tdiv64(k.y, 2)),
        vel_x: wadd(b.vel_x, tdiv64(k.vel_x, 2)),
        vel_y: wadd(b.vel_y, tdiv64(k.vel_y, 2)),
    }
}

/// Pointwise `self + k`: the full-step stage input and the final update.
pub open spec fn spec_plus(b: MotionState, k: MotionState) -> MotionState {
    MotionState {
        mass: b.mass,
        x: wadd(b.x, k.x),
        y: wadd(b.y, k.y),
        vel_x: wadd(b.vel_x, k.vel_x),
        vel_y: wadd(b.vel_y, k.vel_y),
    }
}

/// Pointwise `self + 2 * k`: the weight of the second stage.
pub open spec fn spec_plus_double(b: MotionState, k: MotionState) -> MotionState {
    MotionState {
        mass: b.mass,
        x: wadd(b.x, wmul(2, k.x)),
        y: wadd(b.y, wmul(2, k.y)),
        vel_x: wadd(b.vel_x, wmul(2, k.vel_x)),
        vel_y: wadd(b.vel_y, wmul(2, k.vel_y)),
    }
}

/// Pointwise `2 * self + k`: the weight of the third stage.
pub open spec fn spec_double_plus(b: MotionState, k: MotionState) -> MotionState {
    MotionState {
        mass: b.mass,
        x: wadd(wmul(2, b.x), k.x),
        y: wadd(wmul(2, b.y), k.y),
        vel_x: wadd(wmul(2, b.vel_x), k.vel_x),
        vel_y: wadd(wmul(2, b.vel_y), k.vel_y),
    }
}

/// Pointwise `(self + k) / 6` (truncating): the Runge-Kutta combination.
pub open spec fn spec_sum_div6(b: MotionState, k: MotionState) -> MotionState {
    MotionState {
        mass: b.mass,
        x: tdiv64(wadd(b.x, k.x), 6),
        y: tdiv64(wadd(b.y, k.y), 6),
        vel_x: tdiv64(wadd(b.vel_x, k.vel_x), 6),
        vel_y: tdiv64(wadd(b.vel_y, k.vel_y), 6),
    }
}

impl MotionState {
    pub fn get_mass(&self) -> (r: u64)
        ensures
            r == self.mass,
    {
        self.mass
    }

    pub fn get_x(&self) -> (r: i64)
        ensures
            r == self.x,
    {
        self.x
    }

    pub fn get_y(&self) -> (r: i64)
        ensures
            r == self.y,
    {
        self.y
    }

    pub fn get_vel_x(&self) -> (r: i64)
        ensures
            r == self.vel_x,
    {
        self.vel_x
    }

    pub fn get_vel_y(&self) -> (r: i64)
        ensures
            r == self.vel_y,
    {
        self.vel_y
    }

    pub fn new(mass: u64, x: i64, y: i64, vel_x: i64, vel_y: i64) -> (r: MotionState)
        ensures
            r == (MotionState { mass, x, y, vel_x, vel_y }),
    {
        MotionState { mass, x, y, vel_x, vel_y }
    }

    /// Each motion field multiplied by `dt` and divided by [`PRECISION`].
    pub fn scaled(&self, dt: i64) -> (r: MotionState)
        ensures
            r == spec_scaled(*self, dt),
    {
        MotionState {
            mass: self.mass,
            x: div_i64(self.x.wrapping_mul(dt), PRECISION),
            y: div_i64(self.y.wrapping_mul(dt), PRECISION),
            vel_x: div_i64(self.vel_x.wrapping_mul(dt), PRECISION),
            vel_y: div_i64(self.vel_y.wrapping_mul(dt), PRECISION),
        }
    }

    /// Pointwise `self + k / 2`.
    pub fn plus_half(&self, k: &MotionState) -> (r: MotionState)
        ensures
            r == spec_plus_half(*self, *k),
    {
        MotionState {
            mass: self.mass,
            x: self.x.wrapping_add(div_i64(k.x, 2)),
            y: self.y.wrapping_add(div_i64(k.y, 2)),
            vel_x: self.vel_x.wrapping_add(div_i64(k.vel_x, 2)),
            vel_y: self.vel_y.wrapping_add(div_i64(k.vel_y, 2)),
        }
    }

    /// Pointwise `self + k`.
    pub fn plus(&self, k: &MotionState) -> (r: MotionState)
        ensures
            r == spec_plus(*self, *k),
    {
        MotionState {
            mass: self.mass,
            x: self.x.wrapping_add(k.x),
            y: self.y.wrapping_add(k.y),
            vel_x: self.vel_x.wrapping_add(k.vel_x),
            vel_y: self.vel_y.wrapping_add(k.vel_y),
        }
    }

    /// Pointwise `self + 2 * k`.
    pub fn plus_double(&self, k: &MotionState) -> (r: MotionState)
        ensures
            r == spec_plus_double(*self, *k),
    {
        MotionState {
            mass: self.mass,
            x: self.x.wrapping_add(2i64.wrapping_mul(k.x)),
            y: self.y.wrapping_add(2i64.wrapping_mul(k.y)),
            vel_x: self.vel_x.wrapping_add(2i64.wrapping_mul(k.vel_x)),
            vel_y: self.vel_y.wrapping_add(2i64.wrapping_mul(k.vel_y)),
        }
    }

    /// Pointwise `2 * self + k`.
    pub fn double_plus(&self, k: &MotionState) -> (r: MotionState)
        ensures
            r == spec_double_plus(*self, *k),
    {
        MotionState {
            mass: self.mass,
            x: 2i64.wrapping_mul(self.x).wrapping_add(k.x),
            y: 2i64.wrapping_mul(self.y).wrapping_add(k.y),
            vel_x: 2i64.wrapping_mul(self.vel_x).wrapping_add(k.vel_x),
            vel_y: 2i64.wrapping_mul(self.vel_y).wrapping_add(k.vel_y),
        }
    }

    /// Pointwise `(self + k) / 6`.
    pub fn sum_div6(&self, k: &MotionState) -> (r: MotionState)
        ensures
            r == spec_sum_div6(*self, *k),
    {
        MotionState {
            mass: self.mass,
            x: div_i64(self.x.wrapping_add(k.x), 6),
            y: div_i64(self.y.wrapping_add(k.y), 6),
            vel_x: div_i64(self.vel_x.wrapping_add(k.vel_x), 6),
            vel_y: div_i64(self.vel_y.wrapping_add(k.vel_y), 6),
        }
    }
}

} // verus!
