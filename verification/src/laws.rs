//! Laws of the integrator, stated over the spec-level mirrors that the
//! executable functions are pinned to: determinism, step composition, and
//! the drift of a system whose bodies cannot attract one another.
//!
//! Mass conservation and the zero-tick identity are stated directly in the
//! `ensures` of [`crate::dynamics::tick`] and [`crate::dynamics::tick_many`].

use vstd::prelude::*;

use crate::arith::lemma_wmul_in_range;
use crate::arith::tdiv;
use crate::arith::wmul;
use crate::dynamics::{spec_accum, spec_rate, spec_rk4, spec_tick, spec_tick_many,
    spec_tick_prefix, SimError};
use crate::state::MotionState;
use crate::state::PRECISION;
use crate::state::{spec_plus, spec_plus_half, spec_scaled};

verus! {

/// Running `tick_many` twice on identical arguments gives identical
/// results: its contract pins the result to a function of the arguments
/// alone, so any two results agree bit for bit.
pub proof fn lemma_tick_many_deterministic(
    n: nat,
    dt: i64,
    sys: Seq<MotionState>,
    r1: Result<Seq<MotionState>, SimError>,
    r2: Result<Seq<MotionState>, SimError>,
)
    requires
        r1 == spec_tick_many(n, dt, sys),
        r2 == spec_tick_many(n, dt, sys),
    ensures
        r1 == r2,
{
}

/// Step composition: advancing `a + b` ticks equals advancing `a` ticks and
/// feeding the result through `b` more; a fault within the first `a` ticks
/// is the fault of the whole run.
pub proof fn lemma_tick_many_composes(a: nat, b: nat, dt: i64, sys: Seq<MotionState>)
    ensures
        spec_tick_many(a + b, dt, sys) == (match spec_tick_many(a, dt, sys) {
            Ok(mid) => spec_tick_many(b, dt, mid),
            Err(e) => Err(e),
        }),
    decreases a,
{
    if a > 0 {
        match spec_tick(dt, sys) {
            Err(_) => {},
            Ok(s2) => {
                lemma_tick_many_composes((a - 1) as nat, b, dt, s2);
            },
        }
    }
}

/// The conditions under which one isolated-body step stays inside 64 bits:
/// the velocity-times-`dt` products, their Runge-Kutta combination and the
/// advanced positions all fit in `i64`.
pub open spec fn drift_fits(b: MotionState, dt: i64) -> bool {
    &&& i64::MIN <= b.vel_x * dt <= i64::MAX
    &&& i64::MIN <= b.vel_y * dt <= i64::MAX
    &&& i64::MIN <= 6 * tdiv(b.vel_x * dt, PRECISION as int) <= i64::MAX
    &&& i64::MIN <= 6 * tdiv(b.vel_y * dt, PRECISION as int) <= i64::MAX
    &&& i64::MIN <= b.x + tdiv(b.vel_x * dt, PRECISION as int) <= i64::MAX
    &&& i64::MIN <= b.y + tdiv(b.vel_y * dt, PRECISION as int) <= i64::MAX
}

/// One tick of a body that feels no acceleration: each position advances by
/// exactly `velocity * dt / PRECISION` (truncating) and the velocity is
/// unchanged.
pub open spec fn drifted(b: MotionState, dt: i64) -> MotionState {
    MotionState {
        mass: b.mass,
        x: (b.x + tdiv(b.vel_x * dt, PRECISION as int)) as i64,
        y: (b.y + tdiv(b.vel_y * dt, PRECISION as int)) as i64,
        vel_x: b.vel_x,
        vel_y: b.vel_y,
    }
}

/// In a system where every body carries the probe's own mass value, the
/// accumulated acceleration is exactly zero: the self-interaction skip
/// excludes every body.
proof fn lemma_accum_uniform(state: MotionState, sys: Seq<MotionState>, n: int)
    requires
        0 <= n <= sys.len(),
        forall|j: int| 0 <= j < sys.len() ==> #[trigger] sys[j].mass == state.mass,
    ensures
        spec_accum(state, sys, n) == Ok::<(i64, i64), SimError>((0i64, 0i64)),
    decreases n,
{
    if n > 0 {
        lemma_accum_uniform(state, sys, n - 1);
    }
}

/// The rate of change of a body that interacts with nothing: velocity as
/// position rate, zero acceleration.
proof fn lemma_rate_uniform(state: MotionState, sys: Seq<MotionState>)
    requires
        forall|j: int| 0 <= j < sys.len() ==> #[trigger] sys[j].mass == state.mass,
    ensures
        spec_rate(state, sys) == Ok::<MotionState, SimError>(
            MotionState {
                mass: state.mass,
                x: state.vel_x,
                y: state.vel_y,
                vel_x: 0i64,
                vel_y: 0i64,
            },
        ),
{
    lemma_accum_uniform(state, sys, sys.len() as int);
}

/// The Runge-Kutta step of a body that feels no acceleration collapses to a
/// pure drift: all four stages equal `k1`, and their weighted combination
/// is `k1` itself.
proof fn lemma_rk4_uniform(dt: i64, state: MotionState, sys: Seq<MotionState>)
    requires
        forall|j: int| 0 <= j < sys.len() ==> #[trigger] sys[j].mass == state.mass,
        drift_fits(state, dt),
    ensures
        spec_rk4(dt, state, sys) == Ok::<MotionState, SimError>(drifted(state, dt)),
{
    lemma_rate_uniform(state, sys);
    let d1 = MotionState {
        mass: state.mass,
        x: state.vel_x,
        y: state.vel_y,
        vel_x: 0i64,
        vel_y: 0i64,
    };
    lemma_wmul_in_range(state.vel_x, dt);
    lemma_wmul_in_range(state.vel_y, dt);
    let k1 = spec_scaled(d1, dt);
    let cx = k1.x;
    let cy = k1.y;
    assert(cx == tdiv(state.vel_x * dt, PRECISION as int));
    assert(cy == tdiv(state.vel_y * dt, PRECISION as int));
    assert(k1.vel_x == 0i64 && k1.vel_y == 0i64);
    let stage2 = spec_plus_half(state, k1);
    assert(stage2.vel_x == state.vel_x && stage2.vel_y == state.vel_y && stage2.mass
        == state.mass);
    lemma_rate_uniform(stage2, sys);
    assert(spec_rate(stage2, sys) == Ok::<MotionState, SimError>(d1));
    let stage4 = spec_plus(state, k1);
    assert(stage4.vel_x == state.vel_x && stage4.vel_y == state.vel_y && stage4.mass
        == state.mass);
    lemma_rate_uniform(stage4, sys);
    assert(spec_rate(stage4, sys) == Ok::<MotionState, SimError>(d1));
    lemma_wmul_in_range(2, cx);
    lemma_wmul_in_range(2, cy);
    assert(wmul(2, 0i64) == 0i64) by {
        lemma_wmul_in_range(2, 0i64);
    }
    lemma_combination_collapses(cx);
    lemma_combination_collapses(cy);
    lemma_combination_collapses(0i64);
}

/// `((c + 2c) + (2c + c)) / 6 == c` in truncating arithmetic, whenever `6c`
/// fits in 64 bits.
proof fn lemma_combination_collapses(c: i64)
    requires
        i64::MIN <= 6 * c <= i64::MAX,
    ensures
        tdiv(3 * c + 3 * c, 6) == c,
{
    if c >= 0 {
        vstd::arithmetic::div_mod::lemma_div_multiples_vanish(c as int, 6);
        assert(6 * (c as int) == 3 * c + 3 * c);
    } else {
        vstd::arithmetic::div_mod::lemma_div_multiples_vanish((c as int) * -1, 6);
        assert(6 * ((c as int) * -1) == (3 * c + 3 * c) * -1);
    }
}

/// Every prefix of a tick over a uniform-mass system is the pointwise drift
/// of the input prefix.
proof fn lemma_uniform_tick_prefix(dt: i64, sys: Seq<MotionState>, n: int)
    requires
        0 <= n <= sys.len(),
        forall|i: int, j: int|
            0 <= i < sys.len() && 0 <= j < sys.len() ==> #[trigger] sys[i].mass
                == #[trigger] sys[j].mass,
        forall|i: int| 0 <= i < sys.len() ==> drift_fits(#[trigger] sys[i], dt),
    ensures
        spec_tick_prefix(dt, sys, n) is Ok,
        spec_tick_prefix(dt, sys, n).unwrap().len() == n,
        forall|i: int|
            0 <= i < n ==> #[trigger] spec_tick_prefix(dt, sys, n).unwrap()[i] == drifted(
                sys[i],
                dt,
            ),
    decreases n,
{
    if n > 0 {
        lemma_uniform_tick_prefix(dt, sys, n - 1);
        lemma_rk4_uniform(dt, sys[n - 1], sys);
    }
}

/// Isolated-body invariance: in a system of exactly one body, or of bodies
/// all sharing one mass value, no body feels any acceleration. A tick then
/// advances each position by exactly `velocity * dt / PRECISION`
/// (truncating) and leaves every velocity unchanged — whenever that drift
/// arithmetic stays inside 64 bits, as [`drift_fits`] states.
pub proof fn lemma_uniform_mass_tick(dt: i64, sys: Seq<MotionState>)
    requires
        forall|i: int, j: int|
            0 <= i < sys.len() && 0 <= j < sys.len() ==> #[trigger] sys[i].mass
                == #[trigger] sys[j].mass,
        forall|i: int| 0 <= i < sys.len() ==> drift_fits(#[trigger] sys[i], dt),
    ensures
        spec_tick(dt, sys) is Ok,
        spec_tick(dt, sys).unwrap().len() == sys.len(),
        forall|i: int|
            0 <= i < sys.len() ==> #[trigger] spec_tick(dt, sys).unwrap()[i] == drifted(
                sys[i],
                dt,
            ),
{
    lemma_uniform_tick_prefix(dt, sys, sys.len() as int);
}

} // verus!
