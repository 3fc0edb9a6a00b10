//! Fixed-point scalar arithmetic: the unit scale, saturation to the motor
//! range, and a floor square root.

use vstd::prelude::*;

verus! {

/// Number of micro-units in one unit.  Every scalar in this crate (command
/// axes, motor speeds, angular rates) is an integer count of micro-units.
pub const SCALE: i64 = 1_000_000;

/// One sixth of pi, in micro-units, rounded to the nearest integer: the
/// maximum commanded tilt rate that a full roll or pitch deflection asks for.
pub const PI_SIXTH: i64 = 523_599;

/// Saturation of a raw speed into the motor range `[0, SCALE]`.
pub open spec fn clamp_unit(v: int) -> int {
    if v < 0 {
        0
    } else if v > SCALE {
        SCALE as int
    } else {
        v
    }
}

/// The smaller of two scalars.
pub fn min(v1: i64, v2: i64) -> (r: i64)
    ensures
        r == if v1 < v2 { v1 } else { v2 },
{
    if v1 < v2 {
        return v1;
    }
    return v2;
}

/// The larger of two scalars.
pub fn max(v1: i64, v2: i64) -> (r: i64)
    ensures
        r == if v1 > v2 { v1 } else { v2 },
{
    if v1 > v2 {
        return v1;
    }
    return v2;
}

/// Saturate a raw speed value into `[0, SCALE]`.
pub fn constrain(val: i64) -> (r: i64)
    ensures
        r == clamp_unit(val as int),
{
    return min(max(val, 0), SCALE);
}

/// Floor of the square root of a natural number, defined by counting up.
pub open spec fn sqrt_floor(n: nat) -> nat
    decreases n,
{
    if n == 0 {
        0
    } else {
        let r = sqrt_floor((n - 1) as nat);
        if (r + 1) * (r + 1) <= n {
            r + 1
        } else {
            r
        }
    }
}

/// `sqrt_floor(n)` really is the floor of the square root of `n`.
pub proof fn lemma_sqrt_floor_bounds(n: nat)
    ensures
        sqrt_floor(n) * sqrt_floor(n) <= n,
        n < (sqrt_floor(n) + 1) * (sqrt_floor(n) + 1),
    decreases n,
{
    if n == 0 {
        assert(sqrt_floor(n) == 0);
        assert((sqrt_floor(n) + 1) * (sqrt_floor(n) + 1) == 1) by (nonlinear_arith)
            requires
                sqrt_floor(n) == 0,
        ;
    } else {
        lemma_sqrt_floor_bounds((n - 1) as nat);
        let r = sqrt_floor((n - 1) as nat);
        if (r + 1) * (r + 1) <= n {
            assert(sqrt_floor(n) == r + 1);
            assert((r + 1) * (r + 1) < (r + 2) * (r + 2)) by (nonlinear_arith)
                requires
                    0 <= r,
            ;
        } else {
            assert(sqrt_floor(n) == r);
        }
    }
}

/// Any number whose square is at most `n` while its successor's square
/// exceeds `n` is `sqrt_floor(n)`.
pub proof fn lemma_sqrt_floor_unique(n: nat, r: nat)
    requires
        r * r <= n,
        n < (r + 1) * (r + 1),
    ensures
        r == sqrt_floor(n),
{
    lemma_sqrt_floor_bounds(n);
    let s = sqrt_floor(n);
    if r < s {
        assert((r + 1) * (r + 1) <= s * s) by (nonlinear_arith)
            requires
                0 <= r,
                r + 1 <= s,
        ;
    }
    if s < r {
        assert((s + 1) * (s + 1) <= r * r) by (nonlinear_arith)
            requires
                0 <= s,
                s + 1 <= r,
        ;
    }
}

/// Floor square root of a machine integer, by binary search.
pub fn isqrt(n: u64) -> (r: u64)
    ensures
        r == sqrt_floor(n as nat),
        r * r <= n,
        (n as int) < (r + 1) * (r + 1),
{
    let mut lo: u64 = 0;
    let mut hi: u64 = 4_294_967_296;
    assert((4_294_967_296int) * 4_294_967_296 > n as int);
    while lo + 1 < hi
        invariant
            lo < hi,
            hi <= 4_294_967_296,
            (lo as int) * (lo as int) <= n as int,
            (n as int) < (hi as int) * (hi as int),
        decreases hi - lo,
    {
        let mid: u64 = lo + (hi - lo) / 2;
        assert((mid as int) * (mid as int) <= 4_294_967_295int * 4_294_967_295) by (nonlinear_arith)
            requires
                0 <= mid as int <= 4_294_967_295,
        ;
        let sq: u64 = mid * mid;
        if sq <= n {
            lo = mid;
        } else {
            hi = mid;
        }
    }
    proof {
        assert((lo + 1) * (lo + 1) >= (hi as int) * (hi as int)) by (nonlinear_arith)
            requires
                0 < hi,
                lo + 1 >= hi as int,
        ;
        lemma_sqrt_floor_unique(n as nat, lo as nat);
    }
    lo
}

} // verus!
