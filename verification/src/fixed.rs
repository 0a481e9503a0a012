//! Fixed-point arithmetic for the simulation.
//!
//! One arena unit (and one second of time) is `SCALE` counts. A product of
//! two scaled quantities carries `SCALE * SCALE`, so it is divided once by
//! `SCALE` to come back to a scaled quantity; the division rounds toward
//! zero, as the magnitudes are divided and the sign is put back afterwards.

use vstd::prelude::*;
use vstd::arithmetic::div_mod::lemma_div_is_ordered;
use vstd::arithmetic::div_mod::lemma_div_nonincreasing;

verus! {

/// Number of fixed-point counts in one arena unit and in one second.
pub const SCALE: i64 = 600;

/// Largest magnitude a factor of the fixed-point product may have: two
/// factors of this size still multiply without overflowing 64 bits.
pub const FX_LIMIT: i64 = 2_000_000_000;

/// Largest magnitude `fx_mul` can return on factors within `FX_LIMIT`
/// (`FX_LIMIT * FX_LIMIT / SCALE`, rounded up).
pub const STEP_LIMIT: i64 = 6_666_666_666_666_667;

/// The value is small enough to be a factor of the fixed-point product.
pub open spec fn fx_ok(a: int) -> bool {
    -FX_LIMIT <= a <= FX_LIMIT
}

/// Fixed-point product: the mathematical product, scaled back down by
/// `SCALE` with rounding toward zero.
pub open spec fn fx_mul(a: int, b: int) -> int {
    if a * b >= 0 {
        (a * b) / (SCALE as int)
    } else {
        -((-(a * b)) / (SCALE as int))
    }
}

/// A negative elapsed time is treated as no elapsed time at all.
pub open spec fn dt_clamped(dt: int) -> int {
    if dt < 0 {
        0
    } else {
        dt
    }
}

/// `v` pulled into the interval `[lo, hi]` (for `lo <= hi`).
pub open spec fn clamped(v: int, lo: int, hi: int) -> int {
    if v < lo {
        lo
    } else if v > hi {
        hi
    } else {
        v
    }
}

/// Fixed-point product of two scaled values.
pub fn fx_mul_i64(a: i64, b: i64) -> (r: i64)
    requires
        fx_ok(a as int),
        fx_ok(b as int),
    ensures
        r as int == fx_mul(a as int, b as int),
        -STEP_LIMIT <= r <= STEP_LIMIT,
{
    let neg: bool = (a < 0) != (b < 0);
    let ma: u64 = if a < 0 {
        (-a) as u64
    } else {
        a as u64
    };
    let mb: u64 = if b < 0 {
        (-b) as u64
    } else {
        b as u64
    };
    proof {
        assert(ma as int * mb as int <= (FX_LIMIT as int) * (FX_LIMIT as int)) by (nonlinear_arith)
            requires
                0 <= ma as int <= FX_LIMIT as int,
                0 <= mb as int <= FX_LIMIT as int,
        ;
        assert((ma as int) * (mb as int) == if (a as int) * (b as int) >= 0 {
            (a as int) * (b as int)
        } else {
            -((a as int) * (b as int))
        } && (((a < 0) == (b < 0)) ==> (a as int) * (b as int) >= 0)
            && (((a < 0) != (b < 0)) ==> (a as int) * (b as int) <= 0)) by (nonlinear_arith)
            requires
                ma as int == (if a < 0 { -(a as int) } else { a as int }),
                mb as int == (if b < 0 { -(b as int) } else { b as int }),
        ;
    }
    let p: u64 = ma * mb;
    let q: u64 = p / (SCALE as u64);
    proof {
        lemma_div_nonincreasing(p as int, SCALE as int);
        lemma_div_is_ordered(p as int, (FX_LIMIT as int) * (FX_LIMIT as int), SCALE as int);
    }
    if neg {
        -(q as i64)
    } else {
        q as i64
    }
}

/// Half of a non-negative scaled value, rounded down.
pub fn half_i64(a: i64) -> (r: i64)
    requires
        a >= 0,
    ensures
        r as int == a as int / 2,
{
    proof {
        lemma_div_nonincreasing(a as int, 2);
        vstd::arithmetic::div_mod::lemma_div_pos_is_pos(a as int, 2);
    }
    ((a as u64) / 2) as i64
}

/// `v` pulled into the interval `[lo, hi]`.
pub fn clamp_i64(v: i64, lo: i64, hi: i64) -> (r: i64)
    ensures
        r as int == clamped(v as int, lo as int, hi as int),
{
    if v < lo {
        lo
    } else if v > hi {
        hi
    } else {
        v
    }
}

} // verus!
