//! Exact expected values for every formula, the error cases, and concrete
//! instances of the integrator's laws: determinism, zero-step identity,
//! step composition, isolated-body drift, mass conservation, the
//! coincident-body fault and the duplicate-mass skip.

use rk_fall::dynamics::{
    gravitational_acceleration, grav_rate_func, rk4, tick, tick_many, SimError,
};
use rk_fall::sqrt::sqrt_heron;
use rk_fall::state::{MotionState, PRECISION};

const DT: i64 = PRECISION / 1000;

fn body(mass: u64, x: i64, y: i64, vel_x: i64, vel_y: i64) -> MotionState {
    MotionState::new(mass, x, y, vel_x, vel_y)
}

#[test]
fn scale_constants() {
    assert_eq!(PRECISION, 100_000_000);
    assert_eq!(rk_fall::token::TIME_PERIOD_SEC, PRECISION / 1000);
}

#[test]
fn empty_system_ticks_to_empty() {
    let none: Vec<MotionState> = Vec::new();
    assert_eq!(tick(DT, &none).unwrap(), none);
    assert_eq!(tick_many(100, DT, &none).unwrap(), none);
}

#[test]
fn sqrt_exact_values() {
    assert_eq!(sqrt_heron(0), 0);
    assert_eq!(sqrt_heron(1), 1);
    assert_eq!(sqrt_heron(2), 1);
    assert_eq!(sqrt_heron(9), 3);
    assert_eq!(sqrt_heron(10), 3);
    assert_eq!(sqrt_heron(16), 4);
    assert_eq!(sqrt_heron(10_000_000_000_000_000), 100_000_000);
}

#[test]
fn sqrt_one_below_square_lands_high() {
    // One below a perfect square, the iteration settles one above the root.
    assert_eq!(sqrt_heron(3), 2);
    assert_eq!(sqrt_heron(8), 3);
    assert_eq!(sqrt_heron(15), 4);
    assert_eq!(sqrt_heron(24), 5);
}

#[test]
fn sqrt_negative_sentinel() {
    assert_eq!(sqrt_heron(-1), -1);
    assert_eq!(sqrt_heron(-10_000_000), -1);
    assert_eq!(sqrt_heron(i64::MIN), -1);
}

#[test]
fn sqrt_wraps_at_max() {
    // `x + 1` wraps at i64::MAX and the iteration exits below zero.
    assert_eq!(sqrt_heron(i64::MAX), -2305843009213693952);
}

#[test]
fn grav_acc_exact_values() {
    assert_eq!(gravitational_acceleration(1, 5, -3, 2), 18_750_000_000_000_000);
    assert_eq!(gravitational_acceleration(1, 5, 3, 2), -18_750_000_000_000_000);
    // Truncation toward zero at each division step.
    assert_eq!(gravitational_acceleration(1, 1, 1, 3), -370_370_366_666_666);
}

#[test]
fn rate_exact_values() {
    let system = vec![body(50, 0, 0, 0, 0), body(60, 10, 0, 0, 0)];
    assert_eq!(
        grav_rate_func(&system[0], &system).unwrap(),
        body(50, 0, 0, 6_000_000_000_000_000, 0)
    );
    assert_eq!(
        grav_rate_func(&system[1], &system).unwrap(),
        body(60, 0, 0, -5_000_000_000_000_000, 0)
    );
}

#[test]
fn rk4_and_tick_exact_values() {
    let system = vec![body(50, 0, 0, 0, 0), body(60, 10, 0, 0, 0)];
    let expected0 = body(50, -43712772, 0, -43712772161, 0);
    let expected1 = body(60, -9689540, 0, -9689550041, 0);
    assert_eq!(rk4(DT, &system[0], &system).unwrap(), expected0);
    assert_eq!(rk4(DT, &system[1], &system).unwrap(), expected1);
    assert_eq!(tick(DT, &system).unwrap(), vec![expected0, expected1]);
}

#[test]
fn tick_many_exact_values() {
    let system = vec![body(50, 0, 0, 0, 0), body(60, 10, 0, 0, 0)];
    assert_eq!(
        tick_many(3, DT, &system).unwrap(),
        vec![
            body(50, -131138316, 0, -43712772161, 0),
            body(60, -29068640, 0, -9689550041, 0),
        ]
    );
}

#[test]
fn repeated_runs_are_bit_identical() {
    let system = vec![body(50, 3, -4, 500, -600), body(60, 10, 7, -80, 90)];
    let a = tick_many(7, DT, &system);
    let b = tick_many(7, DT, &system);
    assert_eq!(a, b);
}

#[test]
fn zero_ticks_returns_input() {
    let system = vec![body(50, 1, 2, 3, 4), body(60, 5, 6, 7, 8)];
    assert_eq!(tick_many(0, DT, &system).unwrap(), system);
    assert_eq!(tick_many(0, -123456, &system).unwrap(), system);
}

#[test]
fn tick_many_composes() {
    let system = vec![body(50, 0, 0, 0, 0), body(60, 10, 0, 0, 0)];
    let whole = tick_many(5, DT, &system).unwrap();
    let first = tick_many(2, DT, &system).unwrap();
    let rest = tick_many(3, DT, &first).unwrap();
    assert_eq!(whole, rest);
}

#[test]
fn isolated_body_drifts() {
    // A single body: position advances by exactly vel * dt / PRECISION
    // (truncating, hence -125000001 * 100000 / 100000000 == -125000),
    // velocity unchanged.
    let lone = vec![body(77, 123456789, -987654321, 250000000, -125000001)];
    assert_eq!(
        tick(DT, &lone).unwrap(),
        vec![body(77, 123706789, -987779321, 250000000, -125000001)]
    );
}

#[test]
fn masses_conserved_across_ticks() {
    let system = vec![body(50, 0, 0, 0, 0), body(60, 10, 0, 0, 0), body(70, -9, 8, 7, -6)];
    let out = tick_many(4, DT, &system).unwrap();
    assert_eq!(out.len(), system.len());
    for (a, b) in system.iter().zip(out.iter()) {
        assert_eq!(a.get_mass(), b.get_mass());
    }
}

#[test]
fn coincident_bodies_fault() {
    // Two interacting bodies at the identical point: the first tick must
    // abort rather than return a finite result.
    let system = vec![body(50, 42, 43, 0, 0), body(60, 42, 43, 0, 0)];
    assert_eq!(tick(DT, &system), Err(SimError::CoincidentBodies));
    assert_eq!(tick_many(1, DT, &system), Err(SimError::CoincidentBodies));
}

#[test]
fn zero_ticks_skips_coincident_fault() {
    let system = vec![body(50, 42, 43, 0, 0), body(60, 42, 43, 0, 0)];
    assert_eq!(tick_many(0, DT, &system).unwrap(), system);
}

#[test]
fn division_overflow_fault() {
    // A separation whose squared distance wraps negative makes the root -1;
    // this mass value then drives the first dividend to exactly i64::MIN,
    // and i64::MIN / -1 is the one division the 64-bit range cannot hold.
    let system = vec![
        body(5, 3037000500, 0, 0, 0),
        body(4566650022153682944, 0, 0, 0, 0),
    ];
    assert_eq!(tick(DT, &system), Err(SimError::NumericOverflow));
}

#[test]
fn duplicate_mass_skips_interaction() {
    // Two distinct bodies sharing one mass value behave exactly like two
    // single-body systems: the self-interaction skip misfires for both.
    let a = body(42, 1000, 2000, 300000000, -400000000);
    let b = body(42, -5000, 7000, 100000000, 200000000);
    let pair_out = tick_many(3, DT, &vec![a, b]).unwrap();
    let a_out = tick_many(3, DT, &vec![a]).unwrap();
    let b_out = tick_many(3, DT, &vec![b]).unwrap();
    assert_eq!(pair_out, vec![a_out[0], b_out[0]]);
    assert_eq!(
        pair_out,
        vec![
            body(42, 901000, -1198000, 300000000, -400000000),
            body(42, 295000, 607000, 100000000, 200000000),
        ]
    );
}

#[test]
fn single_orbit_final_state() {
    // The canonical two-body orbit scenario. The acceleration formula's
    // first products (mass * d * PRECISION ~ 1e24) exceed the 64-bit range
    // and wrap, the wrapped accelerations truncate to zero in the stage
    // scaling, and the satellite drifts in a straight line instead of
    // closing an orbit. This exact outcome is pinned here.
    let system = vec![
        body(PRECISION as u64, 0, 0, 0, 0),
        body((PRECISION / 10000) as u64, 0, PRECISION, PRECISION, 0),
    ];
    let out = tick_many(4000, DT, &system).unwrap();
    assert_eq!(
        out,
        vec![
            body(PRECISION as u64, 0, 0, 0, 0),
            body(10000, 4 * PRECISION, PRECISION, PRECISION, 0),
        ]
    );
}
