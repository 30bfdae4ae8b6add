//! The two arithmetic primitives of the simulator: 64-bit wrapping
//! multiplication/addition/subtraction and truncating (round-toward-zero)
//! division.
//!
//! Every quantity in the simulation is a 64-bit integer, and the semantics
//! throughout are those of release-mode Rust: `+`, `-` and `*` wrap on 64
//! bits, `/` truncates toward zero and faults only on a zero divisor or on
//! `i64::MIN / -1`. The spec functions here give those operations exact
//! mathematical definitions that the rest of the crate's contracts are
//! written against.

use vstd::prelude::*;

verus! {

/// Wrapping addition on `i64`, as `wrapping_add` computes it.
pub open spec fn wadd(a: i64, b: i64) -> i64 {
    vstd::wrapping::i64_specs::wrapping_add(a, b)
}

/// Wrapping subtraction on `i64`, as `wrapping_sub` computes it.
pub open spec fn wsub(a: i64, b: i64) -> i64 {
    vstd::wrapping::i64_specs::wrapping_sub(a, b)
}

/// Wrapping multiplication on `i64`, as `wrapping_mul` computes it.
pub open spec fn wmul(a: i64, b: i64) -> i64 {
    vstd::wrapping::i64_specs::wrapping_mul(a, b)
}

/// Truncating (round-toward-zero) division, the meaning of `/` on Rust's
/// signed integers. Verus's `/` on `int` rounds toward negative infinity, so
/// the two differ whenever exactly one operand is negative.
pub open spec fn tdiv(x: int, d: int) -> int
    recommends
        d != 0,
{
    if x == 0 {
        0
    } else if x > 0 && d > 0 {
        x / d
    } else if x < 0 && d < 0 {
        (x * -1) / (d * -1)
    } else if x < 0 {
        ((x * -1) / d) * -1
    } else {
        (x / (d * -1)) * -1
    }
}

/// Truncating division on `i64` values, with the quotient as an `i64`; the
/// quotient of an `i64` by a positive divisor always fits.
pub open spec fn tdiv64(a: i64, b: i64) -> i64
    recommends
        b != 0,
{
    tdiv(a as int, b as int) as i64
}

/// The reinterpretation of a `u64` as an `i64`, bit for bit (what `as i64`
/// does in Rust when the value exceeds `i64::MAX`).
pub open spec fn u64_as_i64(m: u64) -> i64 {
    if m <= i64::MAX as u64 {
        m as i64
    } else {
        (m - 0x1_0000_0000_0000_0000) as i64
    }
}

/// A wrapping product whose mathematical value fits in 64 bits is that
/// value: no wrap happens.
pub proof fn lemma_wmul_in_range(a: i64, b: i64)
    requires
        i64::MIN <= a * b <= i64::MAX,
    ensures
        wmul(a, b) == a * b,
{
    let p = a * b;
    let r = 0x1_0000_0000_0000_0000int;
    if p >= 0 {
        vstd::arithmetic::div_mod::lemma_small_mod(p as nat, r as nat);
    } else {
        vstd::arithmetic::div_mod::lemma_mod_multiples_vanish(-1, p + r, r);
        vstd::arithmetic::div_mod::lemma_small_mod((p + r) as nat, r as nat);
    }
}

/// Truncating division never grows the magnitude of the dividend, and a
/// positive divisor never flips the dividend's sign.
pub proof fn lemma_tdiv_magnitude(x: int, d: int)
    requires
        d != 0,
    ensures
        x >= 0 ==> -x <= tdiv(x, d) <= x,
        x < 0 ==> x <= tdiv(x, d) <= -x,
        d > 0 && x >= 0 ==> tdiv(x, d) >= 0,
        d > 0 && x < 0 ==> tdiv(x, d) <= 0,
{
    if x != 0 {
        let m = if x > 0 { x } else { x * -1 };
        let e = if d > 0 { d } else { d * -1 };
        vstd::arithmetic::div_mod::lemma_div_pos_is_pos(m, e);
        vstd::arithmetic::div_mod::lemma_div_is_ordered_by_denominator(m, 1, e);
        vstd::arithmetic::div_mod::lemma_div_basics(m);
    }
}

/// Division of an `i64` by a positive `i64` cannot leave the `i64` range.
pub proof fn lemma_tdiv_fits(x: i64, d: i64)
    requires
        d > 0,
    ensures
        i64::MIN <= tdiv(x as int, d as int) <= i64::MAX,
{
    lemma_tdiv_magnitude(x as int, d as int);
}

/// Truncating division by a positive divisor, faithful to `/` in the
/// arithmetic of the simulator. The one corner Rust faults on,
/// `i64::MIN / -1`, cannot arise here.
pub fn div_i64(a: i64, b: i64) -> (q: i64)
    requires
        b > 0,
    ensures
        q == tdiv(a as int, b as int),
        q == tdiv64(a, b),
{
    proof {
        lemma_tdiv_fits(a, b);
    }
    a.checked_div(b).unwrap()
}

/// Exactly when dividing `i64::MIN` by `-1`, and only then, the truncating
/// quotient of two `i64` values leaves the `i64` range.
pub proof fn lemma_tdiv_i64_range(a: i64, b: i64)
    requires
        b != 0,
    ensures
        a == i64::MIN && b == -1 ==> tdiv(a as int, b as int) == 0x8000_0000_0000_0000int,
        !(a == i64::MIN && b == -1) ==> i64::MIN <= tdiv(a as int, b as int) <= i64::MAX,
{
    lemma_tdiv_magnitude(a as int, b as int);
    if a == i64::MIN {
        if b == -1 {
            vstd::arithmetic::div_mod::lemma_div_basics(0x8000_0000_0000_0000int);
        } else if b < 0 {
            vstd::arithmetic::div_mod::lemma_div_pos_is_pos(
                0x8000_0000_0000_0000int,
                (b as int) * -1,
            );
            vstd::arithmetic::div_mod::lemma_div_is_ordered_by_denominator(
                0x8000_0000_0000_0000int,
                2,
                (b as int) * -1,
            );
            vstd::arithmetic::div_mod::lemma_fundamental_div_mod_converse_div(
                0x8000_0000_0000_0000int,
                2,
                0x4000_0000_0000_0000int,
                0,
            );
        }
    }
}

/// The bit-for-bit reinterpretation of a `u64` as an `i64`, computed without
/// a truncating cast.
pub fn reinterpret_u64(m: u64) -> (r: i64)
    ensures
        r == u64_as_i64(m),
{
    if m <= i64::MAX as u64 {
        m as i64
    } else {
        let t: u64 = u64::MAX - m;
        -(t as i64) - 1
    }
}

} // verus!
