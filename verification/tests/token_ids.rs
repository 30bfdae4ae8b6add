//! The token-identifier derivation and the array views of a system: the
//! identifier is a 32-byte digest determined by the request alone, and the
//! per-axis arrays come back losslessly.

use rk_fall::dynamics::tick_many;
use rk_fall::state::MotionState;
use rk_fall::token::{
    build_system, masses_of, mint_record, token_id, vel_xs_of, vel_ys_of, xs_of, ys_of,
    TIME_PERIOD_SEC,
};

fn sample_request() -> (Vec<u64>, Vec<i64>, Vec<i64>, Vec<i64>, Vec<i64>, u32) {
    (
        vec![100000000, 10000],
        vec![0, 0],
        vec![0, 100000000],
        vec![0, 100000000],
        vec![0, 0],
        4000,
    )
}

#[test]
fn token_id_is_a_32_byte_digest() {
    let (mass, x, y, vx, vy, ticks) = sample_request();
    let id = token_id(&mass, &x, &y, &vx, &vy, ticks);
    assert_eq!(id.len(), 32);
}

#[test]
fn token_id_is_deterministic() {
    let (mass, x, y, vx, vy, ticks) = sample_request();
    let a = token_id(&mass, &x, &y, &vx, &vy, ticks);
    let b = token_id(&mass, &x, &y, &vx, &vy, ticks);
    assert_eq!(a, b);
}

#[test]
fn token_id_depends_on_every_input() {
    let (mass, x, y, vx, vy, ticks) = sample_request();
    let base = token_id(&mass, &x, &y, &vx, &vy, ticks);
    let mut mass2 = mass.clone();
    mass2[0] += 1;
    assert_ne!(base, token_id(&mass2, &x, &y, &vx, &vy, ticks));
    let mut x2 = x.clone();
    x2[1] -= 1;
    assert_ne!(base, token_id(&mass, &x2, &y, &vx, &vy, ticks));
    assert_ne!(base, token_id(&mass, &x, &y, &vx, &vy, ticks + 1));
}

#[test]
fn token_id_known_value() {
    let id = token_id(&vec![1], &vec![2], &vec![3], &vec![4], &vec![5], 7);
    let expected: [u8; 32] = [
        53, 130, 215, 227, 198, 173, 35, 16, 8, 197, 186, 2, 228, 60, 224, 170, 153, 191, 83, 4,
        147, 177, 15, 146, 3, 195, 87, 49, 71, 165, 190, 117,
    ];
    assert_eq!(id, expected.to_vec());
}

#[test]
fn build_system_and_views_round_trip() {
    let (mass, x, y, vx, vy, _) = sample_request();
    let system = build_system(&mass, &x, &y, &vx, &vy);
    assert_eq!(system.len(), 2);
    assert_eq!(system[1], MotionState::new(10000, 0, 100000000, 100000000, 0));
    assert_eq!(masses_of(&system), mass);
    assert_eq!(xs_of(&system), x);
    assert_eq!(ys_of(&system), y);
    assert_eq!(vel_xs_of(&system), vx);
    assert_eq!(vel_ys_of(&system), vy);
}

#[test]
fn mint_record_matches_its_parts() {
    let (mass, x, y, vx, vy, ticks) = sample_request();
    let rec = mint_record(&mass, &x, &y, &vx, &vy, ticks).unwrap();
    let system = build_system(&mass, &x, &y, &vx, &vy);
    assert_eq!(rec.ticks, ticks);
    assert_eq!(rec.initial_system, system);
    assert_eq!(
        rec.final_system,
        tick_many(ticks, TIME_PERIOD_SEC, &system).unwrap()
    );
    assert_eq!(rec.token_id, token_id(&mass, &x, &y, &vx, &vy, ticks));
    assert_eq!(masses_of(&rec.final_system), mass);
}

#[test]
fn mint_record_propagates_faults() {
    let mass = vec![50, 60];
    let zeros = vec![0, 0];
    let rec = mint_record(&mass, &zeros, &zeros, &zeros, &zeros, 1);
    assert!(rec.is_err());
}
