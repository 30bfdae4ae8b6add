//! The force law and the integrator: pairwise gravitational acceleration,
//! the per-body derivative over a whole system, the 4th-order Runge-Kutta
//! step, and the single- and multi-tick drivers.
//!
//! Every function's result is pinned to a spec-level mirror of the exact
//! arithmetic of the integrator: wrapping 64-bit products and sums, truncating
//! division, and the fixed evaluation order. Only the divisions by a
//! computed separation can fault; everything else is total, so a step
//! either returns the bit-exact next system or reports the first fault it
//! hit:
//!
//! - a computed separation of zero (coincident interacting bodies) would
//!   divide by zero;
//! - dividing `i64::MIN` by a separation of `-1` (a wrapped negative
//!   squared distance) would overflow.
//!
//! The fourth Runge-Kutta stage is evaluated at `state + k2`, not the
//! textbook `state + k3`; that deviation is pinned, deliberate behaviour and
//! is reproduced, not corrected.

use vstd::prelude::*;

use crate::arith::tdiv64;
use crate::arith::u64_as_i64;
use crate::arith::wadd;
use crate::arith::wmul;
use crate::arith::wsub;
use crate::arith::{lemma_tdiv_i64_range, reinterpret_u64};
use crate::sqrt::heron_root_i64;
use crate::sqrt::sqrt_heron;
use crate::state::MotionState;
use crate::state::PRECISION;
use crate::state::{spec_double_plus, spec_plus, spec_plus_double, spec_plus_half, spec_scaled,
    spec_sum_div6};

verus! {

/// A fault that aborts the whole simulation request: no partial result is
/// ever returned.
#[derive(Clone, Copy, Debug, PartialEq, Eq, Structural)]
pub enum SimError {
    /// A computed separation was zero, so the acceleration formula would
    /// divide by zero. On non-wrapping inputs this means two interacting
    /// bodies occupy the same point.
    CoincidentBodies,
    /// A division overflowed the 64-bit range (`i64::MIN / -1`, reachable
    /// only through a wrapped negative squared separation).
    NumericOverflow,
}

/// A truncating division by a separation `r`, faulting exactly where the
/// wrapping arithmetic does on `i64::MIN / -1`.
pub open spec fn spec_div_by_r(a: i64, r: i64) -> Result<i64, SimError>
    recommends
        r != 0,
{
    if a == i64::MIN && r == -1 {
        Err(SimError::NumericOverflow)
    } else {
        Ok(tdiv64(a, r))
    }
}

/// The acceleration contribution along one axis:
/// `(((((-g * mass * d) * PRECISION) / r) * PRECISION) / r) / r`, with
/// wrapping products and truncating divisions in exactly that order.
pub open spec fn spec_grav_acc(grav_g: i64, mass: u64, d: i64, r: i64) -> Result<i64, SimError>
    recommends
        r != 0,
{
    let n1 = wmul(wmul(wsub(0, grav_g), u64_as_i64(mass)), d);
    let n2 = wmul(n1, PRECISION);
    match spec_div_by_r(n2, r) {
        Err(e) => Err(e),
        Ok(q1) => {
            let n3 = wmul(q1, PRECISION);
            match spec_div_by_r(n3, r) {
                Err(e) => Err(e),
                Ok(q2) => spec_div_by_r(q2, r),
            }
        },
    }
}

/// The acceleration sums accumulated over the first `n` bodies of `sys`,
/// in system order, skipping every body whose mass equals the probe's.
pub open spec fn spec_accum(state: MotionState, sys: Seq<MotionState>, n: int) -> Result<
    (i64, i64),
    SimError,
>
    recommends
        0 <= n <= sys.len(),
    decreases n,
{
    if n <= 0 {
        Ok((0i64, 0i64))
    } else {
        match spec_accum(state, sys, n - 1) {
            Err(e) => Err(e),
            Ok(acc) => {
                let o = sys[n - 1];
                if o.mass == state.mass {
                    Ok(acc)
                } else {
                    let dx = wsub(state.x, o.x);
                    let dy = wsub(state.y, o.y);
                    let dist2 = wadd(wmul(dx, dx), wmul(dy, dy));
                    let r = heron_root_i64(dist2);
                    if r == 0 {
                        Err(SimError::CoincidentBodies)
                    } else {
                        match spec_grav_acc(1i64, o.mass, dx, r) {
                            Err(e) => Err(e),
                            Ok(ax) => match spec_grav_acc(1i64, o.mass, dy, r) {
                                Err(e) => Err(e),
                                Ok(ay) => Ok((wadd(acc.0, ax), wadd(acc.1, ay))),
                            },
                        }
                    }
                }
            },
        }
    }
}

/// The instantaneous rate of change of one body: its velocity becomes the
/// position rate and the accumulated gravitational pull becomes the
/// velocity rate; the mass is carried through.
pub open spec fn spec_rate(state: MotionState, sys: Seq<MotionState>) -> Result<
    MotionState,
    SimError,
> {
    match spec_accum(state, sys, sys.len() as int) {
        Err(e) => Err(e),
        Ok(acc) => Ok(
            MotionState {
                mass: state.mass,
                x: state.vel_x,
                y: state.vel_y,
                vel_x: acc.0,
                vel_y: acc.1,
            },
        ),
    }
}

/// One Runge-Kutta step of a single body over `dt`, with all four stage
/// derivatives evaluated against the same system `sys`. The fourth stage is
/// based at `state + k2` (pinned behaviour, see the module notes).
pub open spec fn spec_rk4(dt: i64, state: MotionState, sys: Seq<MotionState>) -> Result<
    MotionState,
    SimError,
> {
    match spec_rate(state, sys) {
        Err(e) => Err(e),
        Ok(d1) => {
            let k1 = spec_scaled(d1, dt);
            match spec_rate(spec_plus_half(state, k1), sys) {
                Err(e) => Err(e),
                Ok(d2) => {
                    let k2 = spec_scaled(d2, dt);
                    match spec_rate(spec_plus_half(state, k2), sys) {
                        Err(e) => Err(e),
                        Ok(d3) => {
                            let k3 = spec_scaled(d3, dt);
                            match spec_rate(spec_plus(state, k2), sys) {
                                Err(e) => Err(e),
                                Ok(d4) => {
                                    let k4 = spec_scaled(d4, dt);
                                    let k1_k2 = spec_plus_double(k1, k2);
                                    let k3_k4 = spec_double_plus(k3, k4);
                                    Ok(spec_plus(state, spec_sum_div6(k1_k2, k3_k4)))
                                },
                            }
                        },
                    }
                },
            }
        },
    }
}

/// The first `n` bodies of `sys` each advanced one Runge-Kutta step against
/// the full pre-step system, in system order.
pub open spec fn spec_tick_prefix(dt: i64, sys: Seq<MotionState>, n: int) -> Result<
    Seq<MotionState>,
    SimError,
>
    recommends
        0 <= n <= sys.len(),
    decreases n,
{
    if n <= 0 {
        Ok(Seq::empty())
    } else {
        match spec_tick_prefix(dt, sys, n - 1) {
            Err(e) => Err(e),
            Ok(acc) => match spec_rk4(dt, sys[n - 1], sys) {
                Err(e) => Err(e),
                Ok(b) => Ok(acc.push(b)),
            },
        }
    }
}

/// One tick: every body advanced one step, all force evaluations against
/// the pre-tick system.
pub open spec fn spec_tick(dt: i64, sys: Seq<MotionState>) -> Result<Seq<MotionState>, SimError> {
    spec_tick_prefix(dt, sys, sys.len() as int)
}

/// `n` ticks threaded in sequence; zero ticks returns the input unchanged.
pub open spec fn spec_tick_many(n: nat, dt: i64, sys: Seq<MotionState>) -> Result<
    Seq<MotionState>,
    SimError,
>
    decreases n,
{
    if n == 0 {
        Ok(sys)
    } else {
        match spec_tick(dt, sys) {
            Err(e) => Err(e),
            Ok(s2) => spec_tick_many((n - 1) as nat, dt, s2),
        }
    }
}

/// A `Vec`-valued step result seen at the spec level.
pub open spec fn res_view(res: Result<Vec<MotionState>, SimError>) -> Result<
    Seq<MotionState>,
    SimError,
> {
    match res {
        Ok(v) => Ok(v@),
        Err(e) => Err(e),
    }
}

/// An accumulation that has faulted stays faulted however many further
/// bodies are folded in.
proof fn lemma_accum_err_stable(state: MotionState, sys: Seq<MotionState>, i: int, n: int)
    requires
        0 <= i <= n <= sys.len(),
        spec_accum(state, sys, i) is Err,
    ensures
        spec_accum(state, sys, n) == spec_accum(state, sys, i),
    decreases n - i,
{
    if n > i {
        lemma_accum_err_stable(state, sys, i, n - 1);
    }
}

/// A tick prefix that has faulted stays faulted however many further bodies
/// are stepped.
proof fn lemma_tick_prefix_err_stable(dt: i64, sys: Seq<MotionState>, i: int, n: int)
    requires
        0 <= i <= n <= sys.len(),
        spec_tick_prefix(dt, sys, i) is Err,
    ensures
        spec_tick_prefix(dt, sys, n) == spec_tick_prefix(dt, sys, i),
    decreases n - i,
{
    if n > i {
        lemma_tick_prefix_err_stable(dt, sys, i, n - 1);
    }
}

/// The acceleration contribution along one axis, with the two faults of the
/// division pipeline reported instead of hit:
/// `(((((-grav_g * mass * d) * PRECISION) / r) * PRECISION) / r) / r`.
pub fn gravitational_acceleration_checked(grav_g: i64, mass: u64, d: i64, r: i64) -> (res: Result<
    i64,
    SimError,
>)
    requires
        r != 0,
    ensures
        res == spec_grav_acc(grav_g, mass, d, r),
{
    let neg_g = 0i64.wrapping_sub(grav_g);
    let m = reinterpret_u64(mass);
    let n1 = neg_g.wrapping_mul(m).wrapping_mul(d);
    let n2 = n1.wrapping_mul(PRECISION);
    let q1 = match div_by_r(n2, r) {
        Ok(v) => v,
        Err(e) => {
            return Err(e);
        },
    };
    let n3 = q1.wrapping_mul(PRECISION);
    let q2 = match div_by_r(n3, r) {
        Ok(v) => v,
        Err(e) => {
            return Err(e);
        },
    };
    div_by_r(q2, r)
}

/// The acceleration contribution along one axis, on inputs where the
/// division pipeline does not fault (a non-zero separation and no
/// `i64::MIN / -1` step).
pub fn gravitational_acceleration(grav_g: i64, mass: u64, d: i64, r: i64) -> (a: i64)
    requires
        r != 0,
        spec_grav_acc(grav_g, mass, d, r) is Ok,
    ensures
        spec_grav_acc(grav_g, mass, d, r) == Ok::<i64, SimError>(a),
{
    match gravitational_acceleration_checked(grav_g, mass, d, r) {
        Ok(v) => v,
        Err(_) => vstd::pervasive::unreached(),
    }
}

/// One truncating division by the separation `r`.
fn div_by_r(a: i64, r: i64) -> (res: Result<i64, SimError>)
    requires
        r != 0,
    ensures
        res == spec_div_by_r(a, r),
{
    proof {
        lemma_tdiv_i64_range(a, r);
    }
    match a.checked_div(r) {
        Some(q) => Ok(q),
        None => Err(SimError::NumericOverflow),
    }
}

/// The instantaneous rate of change of `state` within `system`: velocity as
/// the position rate, and the sum of pairwise gravitational pulls from every
/// body of a different mass as the velocity rate.
pub fn grav_rate_func(state: &MotionState, system: &Vec<MotionState>) -> (res: Result<
    MotionState,
    SimError,
>)
    ensures
        res == spec_rate(*state, system@),
{
    let mut acc_x: i64 = 0;
    let mut acc_y: i64 = 0;
    let mut i: usize = 0;
    while i < system.len()
        invariant
            0 <= i <= system@.len(),
            spec_accum(*state, system@, i as int) == Ok::<(i64, i64), SimError>((acc_x, acc_y)),
        decreases system@.len() - i,
    {
        let s = system[i];
        if s.mass != state.mass {
            // use mass as an identifier; assume gravity of 1
            let dx = state.x.wrapping_sub(s.x);
            let dy = state.y.wrapping_sub(s.y);
            let r = sqrt_heron(dx.wrapping_mul(dx).wrapping_add(dy.wrapping_mul(dy)));
            if r == 0 {
                proof {
                    lemma_accum_err_stable(*state, system@, i as int + 1, system@.len() as int);
                }
                return Err(SimError::CoincidentBodies);
            }
            let ax = match gravitational_acceleration_checked(1, s.mass, dx, r) {
                Ok(v) => v,
                Err(e) => {
                    proof {
                        lemma_accum_err_stable(*state, system@, i as int + 1, system@.len() as int);
                    }
                    return Err(e);
                },
            };
            let ay = match gravitational_acceleration_checked(1, s.mass, dy, r) {
                Ok(v) => v,
                Err(e) => {
                    proof {
                        lemma_accum_err_stable(*state, system@, i as int + 1, system@.len() as int);
                    }
                    return Err(e);
                },
            };
            acc_x = acc_x.wrapping_add(ax);
            acc_y = acc_y.wrapping_add(ay);
        }
        i = i + 1;
    }
    Ok(
        MotionState {
            mass: state.mass,
            x: state.vel_x,
            y: state.vel_y,
            vel_x: acc_x,
            vel_y: acc_y,
        },
    )
}

/// One 4th-order Runge-Kutta step of a single body over `time_period_sec`,
/// with every stage derivative evaluated against `system`. The fourth stage
/// is based at `state + k2` (pinned behaviour, see the module notes).
pub fn rk4(time_period_sec: i64, state: &MotionState, system: &Vec<MotionState>) -> (res: Result<
    MotionState,
    SimError,
>)
    ensures
        res == spec_rk4(time_period_sec, *state, system@),
{
    let d1 = match grav_rate_func(state, system) {
        Ok(v) => v,
        Err(e) => {
            return Err(e);
        },
    };
    let k1 = d1.scaled(time_period_sec);
    let d2 = match grav_rate_func(&state.plus_half(&k1), system) {
        Ok(v) => v,
        Err(e) => {
            return Err(e);
        },
    };
    let k2 = d2.scaled(time_period_sec);
    let d3 = match grav_rate_func(&state.plus_half(&k2), system) {
        Ok(v) => v,
        Err(e) => {
            return Err(e);
        },
    };
    let k3 = d3.scaled(time_period_sec);
    let d4 = match grav_rate_func(&state.plus(&k2), system) {
        Ok(v) => v,
        Err(e) => {
            return Err(e);
        },
    };
    let k4 = d4.scaled(time_period_sec);
    let k1_k2 = k1.plus_double(&k2);
    let k3_k4 = k3.double_plus(&k4);
    Ok(state.plus(&k1_k2.sum_div6(&k3_k4)))
}

/// One tick: every body of `system` advanced one Runge-Kutta step, all
/// force evaluations against the pre-tick system. The result has the same
/// length and order as the input.
pub fn tick(time_period_sec: i64, system: &Vec<MotionState>) -> (res: Result<
    Vec<MotionState>,
    SimError,
>)
    ensures
        res_view(res) == spec_tick(time_period_sec, system@),
        res is Ok ==> res.unwrap()@.len() == system@.len() && forall|i: int|
            0 <= i < system@.len() ==> res.unwrap()@[i].mass == system@[i].mass,
{
    let mut next_system: Vec<MotionState> = Vec::new();
    let mut i: usize = 0;
    while i < system.len()
        invariant
            0 <= i <= system@.len(),
            spec_tick_prefix(time_period_sec, system@, i as int) == Ok::<Seq<MotionState>, SimError>(
                next_system@,
            ),
        decreases system@.len() - i,
    {
        let b = match rk4(time_period_sec, &system[i], system) {
            Ok(v) => v,
            Err(e) => {
                proof {
                    lemma_tick_prefix_err_stable(
                        time_period_sec,
                        system@,
                        i as int + 1,
                        system@.len() as int,
                    );
                }
                return Err(e);
            },
        };
        next_system.push(b);
        i = i + 1;
    }
    proof {
        lemma_tick_mass(time_period_sec, system@, system@.len() as int);
    }
    Ok(next_system)
}

/// A successful Runge-Kutta step keeps the body's mass.
proof fn lemma_rk4_mass(dt: i64, state: MotionState, sys: Seq<MotionState>)
    requires
        spec_rk4(dt, state, sys) is Ok,
    ensures
        spec_rk4(dt, state, sys).unwrap().mass == state.mass,
{
}

/// A successful run of any number of ticks has one output body per input
/// body, each with its input mass.
proof fn lemma_tick_many_mass(n: nat, dt: i64, sys: Seq<MotionState>)
    ensures
        spec_tick_many(n, dt, sys) is Ok ==> spec_tick_many(n, dt, sys).unwrap().len()
            == sys.len() && forall|i: int|
            0 <= i < sys.len() ==> #[trigger] spec_tick_many(n, dt, sys).unwrap()[i].mass
                == sys[i].mass,
    decreases n,
{
    if n > 0 {
        match spec_tick(dt, sys) {
            Err(_) => {},
            Ok(s2) => {
                lemma_tick_mass(dt, sys, sys.len() as int);
                lemma_tick_many_mass((n - 1) as nat, dt, s2);
            },
        }
    }
}

/// A successful tick prefix has one output body per input body, each with
/// its input mass.
proof fn lemma_tick_mass(dt: i64, sys: Seq<MotionState>, n: int)
    requires
        0 <= n <= sys.len(),
        spec_tick_prefix(dt, sys, n) is Ok,
    ensures
        spec_tick_prefix(dt, sys, n).unwrap().len() == n,
        forall|i: int|
            0 <= i < n ==> #[trigger] spec_tick_prefix(dt, sys, n).unwrap()[i].mass
                == sys[i].mass,
    decreases n,
{
    if n > 0 {
        lemma_tick_mass(dt, sys, n - 1);
        lemma_rk4_mass(dt, sys[n - 1], sys);
    }
}

/// `ticks` ticks in sequence, each fed the previous tick's output; zero
/// ticks returns (a copy of) the input. Masses are conserved, by position,
/// across any number of ticks.
#[verifier::rlimit(100)]
pub fn tick_many(ticks: u32, time_period_sec: i64, system: &Vec<MotionState>) -> (res: Result<
    Vec<MotionState>,
    SimError,
>)
    ensures
        res_view(res) == spec_tick_many(ticks as nat, time_period_sec, system@),
        ticks == 0 ==> res_view(res) == Ok::<Seq<MotionState>, SimError>(system@),
        res is Ok ==> res.unwrap()@.len() == system@.len() && forall|i: int|
            0 <= i < system@.len() ==> res.unwrap()@[i].mass == system@[i].mass,
{
    proof {
        lemma_tick_many_mass(ticks as nat, time_period_sec, system@);
    }
    let mut next_system = copy_system(system);
    let mut t: u32 = 0;
    while t < ticks
        invariant
            0 <= t <= ticks,
            spec_tick_many(ticks as nat, time_period_sec, system@) == spec_tick_many(
                (ticks - t) as nat,
                time_period_sec,
                next_system@,
            ),
        decreases ticks - t,
    {
        let ghost prev = next_system@;
        let ghost n_left = (ticks - t) as nat;
        match tick(time_period_sec, &next_system) {
            Ok(v) => {
                proof {
                    assert(spec_tick_many(n_left, time_period_sec, prev) == spec_tick_many(
                        (n_left - 1) as nat,
                        time_period_sec,
                        v@,
                    ));
                }
                next_system = v;
            },
            Err(e) => {
                proof {
                    assert(spec_tick_many(n_left, time_period_sec, prev) == Err::<
                        Seq<MotionState>,
                        SimError,
                    >(e));
                }
                return Err(e);
            },
        }
        t = t + 1;
    }
    Ok(next_system)
}

/// An element-for-element copy of a system.
fn copy_system(system: &Vec<MotionState>) -> (r: Vec<MotionState>)
    ensures
        r@ == system@,
{
    let mut r: Vec<MotionState> = Vec::new();
    let mut i: usize = 0;
    while i < system.len()
        invariant
            0 <= i <= system@.len(),
            r@.len() == i,
            forall|j: int| 0 <= j < i ==> r@[j] == system@[j],
        decreases system@.len() - i,
    {
        r.push(system[i]);
        i = i + 1;
    }
    proof {
        assert(r@ =~= system@);
    }
    r
}

} // verus!
