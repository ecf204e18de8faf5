//! Integer helpers for the fixed-point kinematics: a floor square root,
//! a round-to-nearest division, and the sign-preserving remainder used by
//! the rotary axis.

use vstd::prelude::*;
use vstd::arithmetic::div_mod::{
    lemma_div_is_ordered, lemma_div_multiples_vanish_fancy, lemma_fundamental_div_mod,
    lemma_mod_multiples_basic,
};

verus! {

/// The greatest `r` with `r * r <= s`.
pub open spec fn sqrt_floor(s: nat) -> nat
    decreases s,
{
    if s == 0 {
        0
    } else {
        let p = sqrt_floor((s - 1) as nat);
        if (p + 1) * (p + 1) <= s {
            p + 1
        } else {
            p
        }
    }
}

/// `sqrt_floor` is exactly characterised by bracketing `s` between two
/// consecutive squares.
pub proof fn lemma_sqrt_floor_bounds(s: nat)
    ensures
        sqrt_floor(s) * sqrt_floor(s) <= s,
        s < (sqrt_floor(s) + 1) * (sqrt_floor(s) + 1),
    decreases s,
{
    if s == 0 {
        assert(sqrt_floor(0) == 0);
        assert(0nat < (0nat + 1) * (0nat + 1)) by (nonlinear_arith);
    } else {
        lemma_sqrt_floor_bounds((s - 1) as nat);
        let p = sqrt_floor((s - 1) as nat);
        assert(p * p <= s - 1);
        assert(s - 1 < (p + 1) * (p + 1));
        if (p + 1) * (p + 1) <= s {
            assert(sqrt_floor(s) == p + 1);
            assert((p + 1) * (p + 1) < (p + 2) * (p + 2)) by (nonlinear_arith);
        } else {
            assert(sqrt_floor(s) == p);
        }
    }
}

/// Any `r` bracketed by the two consecutive squares around `s` is the
/// floor square root of `s`.
pub proof fn lemma_sqrt_floor_unique(s: nat, r: nat)
    requires
        r * r <= s,
        s < (r + 1) * (r + 1),
    ensures
        r == sqrt_floor(s),
{
    lemma_sqrt_floor_bounds(s);
    let q = sqrt_floor(s);
    if r < q {
        assert((r + 1) * (r + 1) <= q * q) by (nonlinear_arith)
            requires r + 1 <= q,
        ;
    }
    if q < r {
        assert((q + 1) * (q + 1) <= r * r) by (nonlinear_arith)
            requires q + 1 <= r,
        ;
    }
}

/// The floor square root never exceeds a value whose square bounds `s`.
pub proof fn lemma_sqrt_floor_le(s: nat, b: nat)
    requires
        s <= b * b,
    ensures
        sqrt_floor(s) <= b,
{
    lemma_sqrt_floor_bounds(s);
    let r = sqrt_floor(s);
    if r > b {
        assert(b * b < r * r) by (nonlinear_arith)
            requires b < r,
        ;
    }
}

/// `num / den` rounded to the nearest integer, halves rounded up.
pub open spec fn rounded_div(num: nat, den: nat) -> nat
    recommends
        den > 0,
{
    (2 * num + den) / (2 * den)
}

/// A rounded quotient pinned down by exhibiting quotient and remainder.
pub proof fn lemma_rounded_div_exact(num: nat, den: nat, q: nat, rem: nat)
    requires
        den > 0,
        2 * num + den == 2 * den * q + rem,
        rem < 2 * den,
    ensures
        rounded_div(num, den) == q,
{
    lemma_div_multiples_vanish_fancy(q as int, rem as int, 2 * (den as int));
}

/// The rounded quotient never exceeds a bound `b` whose exact multiple
/// `b * den` bounds the numerator.
pub proof fn lemma_rounded_div_le(num: nat, den: nat, b: nat)
    requires
        den > 0,
        num <= b * den,
    ensures
        rounded_div(num, den) <= b,
{
    let n = num as int;
    let d = den as int;
    assert(2 * n + d <= 2 * d * b + d) by (nonlinear_arith)
        requires n <= b * d,
    ;
    lemma_div_is_ordered(2 * n + d, 2 * d * b + d, 2 * d);
    assert((2 * d * b + d) / (2 * d) == b) by {
        lemma_div_multiples_vanish_fancy(b as int, d, 2 * d);
    }
}

/// The rounded quotient of a numerator at least `den` is at least one.
pub proof fn lemma_rounded_div_pos(num: nat, den: nat)
    requires
        den > 0,
        num >= den,
    ensures
        rounded_div(num, den) >= 1,
{
    let n = num as int;
    let d = den as int;
    lemma_div_is_ordered(2 * d + d, 2 * n + d, 2 * d);
    assert((2 * d * 1 + d) / (2 * d) == 1) by {
        lemma_div_multiples_vanish_fancy(1, d, 2 * d);
    }
}

/// Exec counterpart of [`rounded_div`], on 128-bit operands.
pub fn rounded_div_u128(num: u128, den: u128) -> (r: u128)
    requires
        den > 0,
        2 * num + den <= u128::MAX,
        2 * den <= u128::MAX,
    ensures
        r == rounded_div(num as nat, den as nat),
{
    (2 * num + den) / (2 * den)
}

/// The remainder of `diff` by `modulus` that keeps the sign of `diff`,
/// as the hardware division of the implementation language computes it.
pub open spec fn wrap_delta(diff: int, modulus: int) -> int
    recommends
        modulus > 0,
{
    if diff >= 0 {
        diff % modulus
    } else {
        -((-diff) % modulus)
    }
}

/// The wrapped delta is congruent to the raw difference and strictly
/// smaller than one revolution in magnitude.
pub proof fn lemma_wrap_delta_bounds(diff: int, modulus: int)
    requires
        modulus > 0,
    ensures
        -modulus < wrap_delta(diff, modulus) < modulus,
        (diff - wrap_delta(diff, modulus)) % modulus == 0,
{
    if diff >= 0 {
        lemma_fundamental_div_mod(diff, modulus);
        let q = diff / modulus;
        assert(diff - diff % modulus == q * modulus) by (nonlinear_arith)
            requires diff == modulus * q + diff % modulus,
        ;
        lemma_mod_multiples_basic(q, modulus);
    } else {
        lemma_fundamental_div_mod(-diff, modulus);
        let q = (-diff) / modulus;
        assert(diff - wrap_delta(diff, modulus) == (-q) * modulus) by (nonlinear_arith)
            requires
                -diff == modulus * q + (-diff) % modulus,
                wrap_delta(diff, modulus) == -((-diff) % modulus),
        ;
        lemma_mod_multiples_basic(-q, modulus);
    }
}

/// The floor square root of an unsigned 64-bit value, by bisection.
pub fn isqrt(v: u64) -> (r: u64)
    ensures
        r == sqrt_floor(v as nat),
{
    let mut lo: u64 = 0;
    let mut hi: u64 = 4294967296;
    assert(v < 4294967296u64 * 4294967296u64) by (nonlinear_arith)
        requires v <= u64::MAX,
    ;
    while lo + 1 < hi
        invariant
            lo < hi <= 4294967296,
            lo * lo <= v,
            v < hi * hi,
        decreases hi - lo,
    {
        let mid: u64 = lo + (hi - lo) / 2;
        proof {
            assert(mid * mid <= 4294967295u64 * 4294967295u64) by (nonlinear_arith)
                requires mid <= 4294967295u64,
            ;
        }
        if mid * mid <= v {
            lo = mid;
        } else {
            hi = mid;
        }
    }
    proof {
        lemma_sqrt_floor_unique(v as nat, lo as nat);
    }
    lo
}

} // verus!
