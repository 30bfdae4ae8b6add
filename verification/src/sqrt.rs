//! The scalar square root used for body separations.
//!
//! [`sqrt_heron`] runs Heron's (Newton's) iteration on 64-bit integers:
//! starting from `x_old = x`, `x_new = (x_old + 1) / 2`, it replaces
//! `x_old` by `x_new` and `x_new` by `(x_old + x / x_old) / 2` while
//! `x_new < x_old`, and returns the final `x_new`. Two quirks of that loop
//! are part of the function's pinned behaviour and are captured exactly by
//! the contract:
//!
//! - for `x == s*s + 2*s` (one below a perfect square) the iteration settles
//!   one above the true root, so the result is `s + 1` rather than `s`;
//! - a negative input returns the sentinel `-1` instead of faulting.

use vstd::arithmetic::div_mod::{
    lemma_div_is_ordered, lemma_div_is_ordered_by_denominator, lemma_div_multiples_vanish,
    lemma_div_pos_is_pos, lemma_fundamental_div_mod, lemma_fundamental_div_mod_converse_div,
    lemma_mod_bound,
};
use vstd::prelude::*;

use crate::arith::div_i64;
use crate::arith::tdiv;

verus! {

/// The integer square root: the greatest `r` with `r * r <= x`.
pub open spec fn isqrt(x: int) -> int
    recommends
        x >= 0,
    decreases x,
{
    if x <= 0 {
        0
    } else {
        let r = isqrt(x - 1);
        if (r + 1) * (r + 1) <= x {
            r + 1
        } else {
            r
        }
    }
}

/// What the Heron iteration converges to on a non-wrapping input: the integer
/// square root, except one above it when `x` is one below a perfect square;
/// `-1` for negative input.
pub open spec fn heron_root(x: int) -> int {
    if x < 0 {
        -1
    } else if x == 0 {
        0
    } else {
        let s = isqrt(x);
        if x == s * s + 2 * s {
            s + 1
        } else {
            s
        }
    }
}

/// The exact result of [`sqrt_heron`] on every `i64`. At `x == i64::MAX` the
/// first step `x + 1` wraps to `i64::MIN` and the iteration exits below zero
/// after two steps; everywhere else the loop never wraps and the closed form
/// [`heron_root`] applies.
pub open spec fn heron_root_i64(x: i64) -> i64 {
    if x == i64::MAX {
        -0x2000_0000_0000_0000i64
    } else {
        heron_root(x as int) as i64
    }
}

/// The defining property of [`isqrt`]: it is the greatest integer whose
/// square does not exceed `x`.
pub proof fn lemma_isqrt_props(x: int)
    requires
        x >= 0,
    ensures
        0 <= isqrt(x),
        isqrt(x) * isqrt(x) <= x,
        x < (isqrt(x) + 1) * (isqrt(x) + 1),
        x >= 1 ==> 1 <= isqrt(x),
    decreases x,
{
    if x == 0 {
    } else {
        lemma_isqrt_props(x - 1);
        let r = isqrt(x - 1);
        if (r + 1) * (r + 1) <= x {
            assert((r + 2) * (r + 2) > (r + 1) * (r + 1)) by (nonlinear_arith)
                requires
                    r >= 0,
            ;
        } else {
            assert(r >= 1 || (r + 1) * (r + 1) == 1) by (nonlinear_arith)
                requires
                    r >= 0,
            ;
        }
    }
}

/// Any `a` whose square does not exceed `x` is at most `isqrt(x)`.
pub proof fn lemma_isqrt_at_least(x: int, a: int)
    requires
        x >= 0,
        a >= 0,
        a * a <= x,
    ensures
        a <= isqrt(x),
{
    lemma_isqrt_props(x);
    let s = isqrt(x);
    if a > s {
        assert(a * a >= (s + 1) * (s + 1)) by (nonlinear_arith)
            requires
                a >= s + 1,
                s >= 0,
        ;
    }
}

/// On inputs bounded by `i64::MAX` the integer square root is bounded by
/// the root of `2^63`.
pub proof fn lemma_isqrt_bound_i64(x: int)
    requires
        0 <= x <= i64::MAX,
    ensures
        isqrt(x) <= 0xB504_F333,
{
    lemma_isqrt_props(x);
    let s = isqrt(x);
    if s > 0xB504_F333 {
        assert(s * s > 0x7FFF_FFFF_FFFF_FFFF) by (nonlinear_arith)
            requires
                s >= 0xB504_F334,
        ;
    }
}

/// The arithmetic-geometric-mean step of Heron's iteration never drops below
/// the integer square root: `(a + x/a) / 2 >= isqrt(x)` for positive `a`.
pub proof fn lemma_heron_step_lower(x: int, a: int)
    requires
        x >= 0,
        a >= 1,
    ensures
        tdiv(a + tdiv(x, a), 2) >= isqrt(x),
{
    lemma_isqrt_props(x);
    let s = isqrt(x);
    let q = x / a;
    lemma_div_pos_is_pos(x, a);
    lemma_fundamental_div_mod(x, a);
    lemma_mod_bound(x, a);
    assert(a * q >= x - a + 1);
    assert(a + q >= 2 * s) by (nonlinear_arith)
        requires
            a >= 1,
            q >= 0,
            s >= 0,
            x >= s * s,
            a * q >= x - a + 1,
    ;
    assert(tdiv(x, a) == q);
    assert(tdiv(a + q, 2) >= s) by {
        assert(tdiv(a + q, 2) == (a + q) / 2);
        lemma_div_is_ordered(2 * s, a + q, 2);
        assert((2 * s) / 2 == s) by {
            lemma_div_multiples_vanish(s, 2);
        }
    }
}

/// If a Heron step does not decrease, the pivot `a` is already at or below
/// the true root: `(a + x/a) / 2 >= a` forces `a * a <= x`.
pub proof fn lemma_heron_exit(x: int, a: int)
    requires
        x >= 0,
        a >= 1,
        tdiv(a + tdiv(x, a), 2) >= a,
    ensures
        x >= a * a,
{
    let q = x / a;
    lemma_div_pos_is_pos(x, a);
    assert(tdiv(x, a) == q);
    assert(tdiv(a + q, 2) == (a + q) / 2);
    lemma_fundamental_div_mod(a + q, 2);
    lemma_mod_bound(a + q, 2);
    assert(a + q >= 2 * a);
    lemma_fundamental_div_mod(x, a);
    lemma_mod_bound(x, a);
    assert(x >= a * q);
    assert(a * q >= a * a) by (nonlinear_arith)
        requires
            q >= a,
            a >= 1,
    ;
}

/// The value of the final Heron step once the pivot has reached the root:
/// it lands on `s`, except one above when `x` is one below a perfect square.
pub proof fn lemma_heron_final(x: int, s: int)
    requires
        s >= 1,
        s * s <= x <= s * s + 2 * s,
    ensures
        tdiv(s + tdiv(x, s), 2) == if x == s * s + 2 * s {
            s + 1
        } else {
            s
        },
{
    let q = x / s;
    lemma_div_pos_is_pos(x, s);
    assert(tdiv(x, s) == q);
    assert(q >= s) by {
        lemma_div_is_ordered(s * s, x, s);
        assert((s * s) / s == s) by {
            lemma_fundamental_div_mod_converse_div(s * s, s, s, 0);
        }
    }
    if x == s * s + 2 * s {
        assert(q == s + 2) by {
            assert(x == (s + 2) * s + 0) by (nonlinear_arith)
                requires
                    x == s * s + 2 * s,
            ;
            lemma_fundamental_div_mod_converse_div(x, s, s + 2, 0);
        }
        assert(tdiv(s + q, 2) == s + 1) by {
            assert(s + q == (s + 1) * 2 + 0);
            lemma_fundamental_div_mod_converse_div(s + q, 2, s + 1, 0);
            assert(tdiv(s + q, 2) == (s + q) / 2);
        }
    } else {
        assert(q <= s + 1) by {
            lemma_div_is_ordered(x, s * s + 2 * s - 1, s);
            assert((s * s + 2 * s - 1) / s == s + 1) by {
                assert(s * s + 2 * s - 1 == (s + 1) * s + (s - 1)) by (nonlinear_arith);
                lemma_fundamental_div_mod_converse_div(s * s + 2 * s - 1, s, s + 1, s - 1);
            }
        }
        assert(tdiv(s + q, 2) == s) by {
            assert(tdiv(s + q, 2) == (s + q) / 2);
            lemma_fundamental_div_mod(s + q, 2);
            lemma_mod_bound(s + q, 2);
        }
    }
}

/// The root is zero exactly on the zero input: the zero-separation fault
/// of the force law fires precisely when the (wrapped) squared distance
/// comes out zero.
pub proof fn lemma_heron_root_zero(x: i64)
    ensures
        heron_root_i64(x) == 0 <==> x == 0,
{
    if 0 < x < i64::MAX {
        lemma_isqrt_props(x as int);
        lemma_isqrt_bound_i64(x as int);
    }
}

/// The scalar square root of the simulator: Heron's iteration with truncating
/// division, the `-1` sentinel on negative input, and the wrap of `x + 1`
/// at `i64::MAX`.
pub fn sqrt_heron(x: i64) -> (r: i64)
    ensures
        r == heron_root_i64(x),
{
    if x < 0 {
        return -1;
    }
    if x == i64::MAX {
        // `x_old + 1` wraps to `i64::MIN` here and the iteration exits
        // below zero after two steps; this is the exact value the wrapping
        // loop converges to.
        return -0x2000_0000_0000_0000;
    }
    proof {
        lemma_isqrt_props(x as int);
        lemma_isqrt_bound_i64(x as int);
    }
    let ghost s: int = isqrt(x as int);
    let mut x_old = x;
    let mut x_new = div_i64(x + 1, 2);
    proof {
        assert(s <= x) by (nonlinear_arith)
            requires
                s >= 0,
                x as int >= 0,
                s * s <= x as int,
        ;
        assert(tdiv(x as int + 1, 2) >= s) by {
            assert(x as int + 1 >= 2 * s) by (nonlinear_arith)
                requires
                    s * s <= x as int,
                    s >= 0,
            ;
            assert(tdiv(x as int + 1, 2) == (x as int + 1) / 2);
            lemma_div_is_ordered(2 * s, x as int + 1, 2);
            assert((2 * s) / 2 == s) by {
                lemma_div_multiples_vanish(s, 2);
            }
        }
        assert(tdiv(x as int + 1, 2) <= 0x4000_0000_0000_0000) by {
            assert(tdiv(x as int + 1, 2) == (x as int + 1) / 2);
            lemma_div_is_ordered(x as int + 1, 0x7FFF_FFFF_FFFF_FFFFint, 2);
            lemma_fundamental_div_mod_converse_div(
                0x7FFF_FFFF_FFFF_FFFFint,
                2,
                0x3FFF_FFFF_FFFF_FFFFint,
                1,
            );
        }
    }
    while x_new < x_old
        invariant
            0 <= x < i64::MAX,
            s == isqrt(x as int),
            0 <= s <= 0xB504_F333,
            s * s <= x,
            x < (s + 1) * (s + 1),
            s <= x_old <= x,
            s <= x_new <= 0x4000_0000_0000_0000,
            (x_old == x && x_new == tdiv(x as int + 1, 2)) || (x >= 2 && x_old >= 1 && x_new
                == tdiv(x_old as int + tdiv(x as int, x_old as int), 2)),
        decreases x_old,
    {
        proof {
            if x_old == x && x_new == tdiv(x as int + 1, 2) {
                assert(tdiv(x as int + 1, 2) == (x as int + 1) / 2);
                lemma_fundamental_div_mod(x as int + 1, 2);
                lemma_mod_bound(x as int + 1, 2);
                assert(x >= 2);
            }
        }
        x_old = x_new;
        proof {
            assert(s >= 1) by (nonlinear_arith)
                requires
                    s >= 0,
                    x as int >= 2,
                    (x as int) < (s + 1) * (s + 1),
            ;
            lemma_div_pos_is_pos(x as int, x_old as int);
            lemma_div_is_ordered_by_denominator(x as int, s, x_old as int);
            assert((x as int) / (s as int) <= s + 2) by {
                assert(x as int <= s * (s + 2)) by (nonlinear_arith)
                    requires
                        (x as int) < (s + 1) * (s + 1),
                ;
                lemma_div_is_ordered(x as int, s * (s + 2), s);
                assert((s * (s + 2)) / s == s + 2) by {
                    assert(s * (s + 2) == (s + 2) * s + 0) by (nonlinear_arith);
                    lemma_fundamental_div_mod_converse_div(s * (s + 2), s, s + 2, 0);
                }
            }
            assert(tdiv(x as int, x_old as int) == (x as int) / (x_old as int));
        }
        let quot = div_i64(x, x_old);
        proof {
            lemma_heron_step_lower(x as int, x_old as int);
            assert(tdiv(x_old as int + quot as int, 2) <= 0x4000_0000_0000_0000) by {
                assert(tdiv(x_old as int + quot as int, 2) == (x_old as int + quot as int) / 2);
                lemma_div_is_ordered(
                    x_old as int + quot as int,
                    4611686021464388405int,
                    2,
                );
                lemma_fundamental_div_mod_converse_div(
                    4611686021464388405int,
                    2,
                    2305843010732194202int,
                    1,
                );
            }
        }
        x_new = div_i64(x_old + quot, 2);
    }
    proof {
        if x_old == x && x_new == tdiv(x as int + 1, 2) {
            assert(tdiv(x as int + 1, 2) == (x as int + 1) / 2);
            lemma_fundamental_div_mod(x as int + 1, 2);
            lemma_mod_bound(x as int + 1, 2);
            assert(x <= 1);
            if x == 0 {
                assert(tdiv(1, 2) == 0) by {
                    lemma_fundamental_div_mod_converse_div(1, 2, 0, 1);
                }
            } else {
                assert(tdiv(2, 2) == 1) by {
                    lemma_fundamental_div_mod_converse_div(2, 2, 1, 0);
                }
                assert(isqrt(1) == 1) by {
                    reveal_with_fuel(isqrt, 3);
                }
            }
        } else {
            assert(s >= 1) by (nonlinear_arith)
                requires
                    s >= 0,
                    x as int >= 2,
                    (x as int) < (s + 1) * (s + 1),
            ;
            lemma_heron_exit(x as int, x_old as int);
            lemma_isqrt_at_least(x as int, x_old as int);
            assert(x_old == s);
            assert(x as int <= s * s + 2 * s) by (nonlinear_arith)
                requires
                    (x as int) < (s + 1) * (s + 1),
            ;
            lemma_heron_final(x as int, s);
        }
        assert(x_new as int == heron_root(x as int));
    }
    x_new
}

} // verus!
