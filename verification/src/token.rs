//! The token-identifier derivation and the lossless array views of a
//! system, the compute half of the minting workflow.
//!
//! A mint request arrives as per-axis arrays (masses, positions,
//! velocities) and a tick count. The initial system is built from the
//! arrays, advanced by [`crate::dynamics::tick_many`], and the token
//! identifier is the Keccak-256 hash of the canonical ABI encoding of the
//! request. The per-axis arrays of any system are exposed losslessly, in
//! system order, for the caller's event record.

use vstd::prelude::*;

use crate::dynamics::res_view;
use crate::dynamics::spec_tick_many;
use crate::dynamics::tick_many;
use crate::dynamics::SimError;
use crate::state::MotionState;

verus! {

/// The time increment of one tick in the minting workflow: one thousandth
/// of a second, fixed-point scaled (`0.001 * PRECISION`).
pub const TIME_PERIOD_SEC: i64 = 100000;

/// The canonical ABI encoding of a mint request: the byte sequence that
/// `(uint64[], int64[], int64[], int64[], int64[], uint32)` encodes to.
/// It is a function of the six values alone; its exact layout is fixed by
/// the encoder and is not restated here.
pub uninterp spec fn abi_encoding_of(
    mass: Seq<u64>,
    x: Seq<i64>,
    y: Seq<i64>,
    vel_x: Seq<i64>,
    vel_y: Seq<i64>,
    ticks: u32,
) -> Seq<u8>;

/// The Keccak-256 digest of a byte sequence: a function of the bytes alone.
pub uninterp spec fn keccak_of(data: Seq<u8>) -> Seq<u8>;

/// Relies on alloy_sol_types::SolValue::abi_encode_params: the ABI encoding
/// of the request tuple as a parameter sequence, a function of the six
/// values alone.
#[verifier::external_body]
fn abi_encode_request(
    mass: &Vec<u64>,
    x: &Vec<i64>,
    y: &Vec<i64>,
    vel_x: &Vec<i64>,
    vel_y: &Vec<i64>,
    ticks: u32,
) -> (r: Vec<u8>)
    ensures
        r@ == abi_encoding_of(mass@, x@, y@, vel_x@, vel_y@, ticks),
{
    let request = (mass.clone(), x.clone(), y.clone(), vel_x.clone(), vel_y.clone(), ticks);
    alloy_sol_types::SolValue::abi_encode_params(&request)
}

/// Relies on alloy_primitives::keccak256: the 32-byte Keccak-256 digest,
/// a function of the input bytes alone.
#[verifier::external_body]
fn keccak256_bytes(data: &Vec<u8>) -> (r: Vec<u8>)
    ensures
        r@ == keccak_of(data@),
        r@.len() == 32,
{
    alloy_primitives::keccak256(data.as_slice()).0.to_vec()
}

/// The token identifier of a mint request: the Keccak-256 hash of the
/// canonical encoding of the initial conditions and the tick count.
pub fn token_id(
    mass: &Vec<u64>,
    x: &Vec<i64>,
    y: &Vec<i64>,
    vel_x: &Vec<i64>,
    vel_y: &Vec<i64>,
    ticks: u32,
) -> (r: Vec<u8>)
    ensures
        r@ == keccak_of(abi_encoding_of(mass@, x@, y@, vel_x@, vel_y@, ticks)),
        r@.len() == 32,
{
    let data = abi_encode_request(mass, x, y, vel_x, vel_y, ticks);
    keccak256_bytes(&data)
}

/// The system described by per-axis arrays: the `i`-th body takes the
/// `i`-th entry of each array.
pub open spec fn spec_system(
    mass: Seq<u64>,
    x: Seq<i64>,
    y: Seq<i64>,
    vel_x: Seq<i64>,
    vel_y: Seq<i64>,
) -> Seq<MotionState>
    recommends
        x.len() == mass.len(),
        y.len() == mass.len(),
        vel_x.len() == mass.len(),
        vel_y.len() == mass.len(),
{
    Seq::new(
        mass.len(),
        |i: int|
            MotionState {
                mass: mass[i],
                x: x[i],
                y: y[i],
                vel_x: vel_x[i],
                vel_y: vel_y[i],
            },
    )
}

/// Builds the initial system from the caller's per-axis arrays.
pub fn build_system(
    mass: &Vec<u64>,
    x: &Vec<i64>,
    y: &Vec<i64>,
    vel_x: &Vec<i64>,
    vel_y: &Vec<i64>,
) -> (r: Vec<MotionState>)
    requires
        x@.len() == mass@.len(),
        y@.len() == mass@.len(),
        vel_x@.len() == mass@.len(),
        vel_y@.len() == mass@.len(),
    ensures
        r@ == spec_system(mass@, x@, y@, vel_x@, vel_y@),
{
    let mut r: Vec<MotionState> = Vec::new();
    let mut i: usize = 0;
    while i < mass.len()
        invariant
            0 <= i <= mass@.len(),
            x@.len() == mass@.len(),
            y@.len() == mass@.len(),
            vel_x@.len() == mass@.len(),
            vel_y@.len() == mass@.len(),
            r@.len() == i,
            forall|j: int|
                0 <= j < i ==> r@[j] == (MotionState {
                    mass: mass@[j],
                    x: x@[j],
                    y: y@[j],
                    vel_x: vel_x@[j],
                    vel_y: vel_y@[j],
                }),
        decreases mass@.len() - i,
    {
        r.push(MotionState::new(mass[i], x[i], y[i], vel_x[i], vel_y[i]));
        i = i + 1;
    }
    proof {
        assert(r@ =~= spec_system(mass@, x@, y@, vel_x@, vel_y@));
    }
    r
}

/// The mass array of a system, losslessly and in system order.
pub fn masses_of(system: &Vec<MotionState>) -> (r: Vec<u64>)
    ensures
        r@.len() == system@.len(),
        forall|i: int| 0 <= i < system@.len() ==> r@[i] == system@[i].mass,
{
    let mut r: Vec<u64> = Vec::new();
    let mut i: usize = 0;
    while i < system.len()
        invariant
            0 <= i <= system@.len(),
            r@.len() == i,
            forall|j: int| 0 <= j < i ==> r@[j] == system@[j].mass,
        decreases system@.len() - i,
    {
        r.push(system[i].get_mass());
        i = i + 1;
    }
    r
}

/// The x-position array of a system, losslessly and in system order.
pub fn xs_of(system: &Vec<MotionState>) -> (r: Vec<i64>)
    ensures
        r@.len() == system@.len(),
        forall|i: int| 0 <= i < system@.len() ==> r@[i] == system@[i].x,
{
    let mut r: Vec<i64> = Vec::new();
    let mut i: usize = 0;
    while i < system.len()
        invariant
            0 <= i <= system@.len(),
            r@.len() == i,
            forall|j: int| 0 <= j < i ==> r@[j] == system@[j].x,
        decreases system@.len() - i,
    {
        r.push(system[i].get_x());
        i = i + 1;
    }
    r
}

/// The y-position array of a system, losslessly and in system order.
pub fn ys_of(system: &Vec<MotionState>) -> (r: Vec<i64>)
    ensures
        r@.len() == system@.len(),
        forall|i: int| 0 <= i < system@.len() ==> r@[i] == system@[i].y,
{
    let mut r: Vec<i64> = Vec::new();
    let mut i: usize = 0;
    while i < system.len()
        invariant
            0 <= i <= system@.len(),
            r@.len() == i,
            forall|j: int| 0 <= j < i ==> r@[j] == system@[j].y,
        decreases system@.len() - i,
    {
        r.push(system[i].get_y());
        i = i + 1;
    }
    r
}

/// The x-velocity array of a system, losslessly and in system order.
pub fn vel_xs_of(system: &Vec<MotionState>) -> (r: Vec<i64>)
    ensures
        r@.len() == system@.len(),
        forall|i: int| 0 <= i < system@.len() ==> r@[i] == system@[i].vel_x,
{
    let mut r: Vec<i64> = Vec::new();
    let mut i: usize = 0;
    while i < system.len()
        invariant
            0 <= i <= system@.len(),
            r@.len() == i,
            forall|j: int| 0 <= j < i ==> r@[j] == system@[j].vel_x,
        decreases system@.len() - i,
    {
        r.push(system[i].get_vel_x());
        i = i + 1;
    }
    r
}

/// The y-velocity array of a system, losslessly and in system order.
pub fn vel_ys_of(system: &Vec<MotionState>) -> (r: Vec<i64>)
    ensures
        r@.len() == system@.len(),
        forall|i: int| 0 <= i < system@.len() ==> r@[i] == system@[i].vel_y,
{
    let mut r: Vec<i64> = Vec::new();
    let mut i: usize = 0;
    while i < system.len()
        invariant
            0 <= i <= system@.len(),
            r@.len() == i,
            forall|j: int| 0 <= j < i ==> r@[j] == system@[j].vel_y,
        decreases system@.len() - i,
    {
        r.push(system[i].get_vel_y());
        i = i + 1;
    }
    r
}

/// Everything a mint caller persists and logs: the token identifier, the
/// tick count, and the full initial and final systems.
#[derive(Clone, Debug)]
pub struct MintRecord {
    pub token_id: Vec<u8>,
    pub ticks: u32,
    pub initial_system: Vec<MotionState>,
    pub final_system: Vec<MotionState>,
}

/// The compute half of a mint request: builds the initial system from the
/// per-axis arrays, advances it `ticks` ticks at [`TIME_PERIOD_SEC`], and
/// derives the token identifier from the initial conditions. Faults of the
/// simulation abort the whole request.
pub fn mint_record(
    mass: &Vec<u64>,
    x: &Vec<i64>,
    y: &Vec<i64>,
    vel_x: &Vec<i64>,
    vel_y: &Vec<i64>,
    ticks: u32,
) -> (res: Result<MintRecord, SimError>)
    requires
        x@.len() == mass@.len(),
        y@.len() == mass@.len(),
        vel_x@.len() == mass@.len(),
        vel_y@.len() == mass@.len(),
    ensures
        (match res {
            Ok(rec) => {
                &&& rec.initial_system@ == spec_system(mass@, x@, y@, vel_x@, vel_y@)
                &&& spec_tick_many(
                    ticks as nat,
                    TIME_PERIOD_SEC,
                    spec_system(mass@, x@, y@, vel_x@, vel_y@),
                ) == Ok::<Seq<MotionState>, SimError>(rec.final_system@)
                &&& rec.token_id@ == keccak_of(
                    abi_encoding_of(mass@, x@, y@, vel_x@, vel_y@, ticks),
                )
                &&& rec.ticks == ticks
            },
            Err(e) => spec_tick_many(
                ticks as nat,
                TIME_PERIOD_SEC,
                spec_system(mass@, x@, y@, vel_x@, vel_y@),
            ) == Err::<Seq<MotionState>, SimError>(e),
        }),
{
    let initial_system = build_system(mass, x, y, vel_x, vel_y);
    let final_system = match tick_many(ticks, TIME_PERIOD_SEC, &initial_system) {
        Ok(v) => v,
        Err(e) => {
            return Err(e);
        },
    };
    let id = token_id(mass, x, y, vel_x, vel_y, ticks);
    Ok(MintRecord { token_id: id, ticks, initial_system, final_system })
}

} // verus!
