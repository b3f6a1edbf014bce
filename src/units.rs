//! Fixed-point units and the arithmetic shared by the movement rules.
use vstd::prelude::*;

verus! {

/// Microseconds in one second: durations are counted in microseconds.
pub const MICROS_PER_SECOND: u64 = 1_000_000;

/// The unit of a multiplier or of the run axis: `1000` stands for `1.0`.
pub const MULTI_ONE: u64 = 1000;

/// The longest simulation step that the behaviours accept (ten seconds).
pub const MAX_STEP_MICROS: u64 = 10_000_000;

/// The largest speed or acceleration a tuning parameter may hold.
pub const MAX_TUNING_SPEED: i64 = 1_000_000_000;

/// The largest multiplier a tuning parameter may hold (a thousandfold).
pub const MAX_TUNING_MULTI: u64 = 1_000_000;

/// The largest magnitude of a velocity component handed to a jump.
pub const VELOCITY_LIMIT: i64 = 1_000_000_000_000_000;

/// The sign of `x`: `-1`, `0` or `1`.
pub open spec fn sign(x: int) -> int {
    if x > 0 {
        1
    } else if x < 0 {
        -1
    } else {
        0
    }
}

/// The magnitude of `x`.
pub open spec fn abs(x: int) -> int {
    if x < 0 {
        -x
    } else {
        x
    }
}

/// `x` scaled by `num / den`, rounded toward zero.
pub open spec fn scale_toward_zero(x: int, num: int, den: int) -> int {
    sign(x) * ((abs(x) * num) / den)
}

/// A product of bounded non-negative factors is bounded by the product of the bounds.
pub proof fn lemma_mul_bounded(a: int, b: int, amax: int, bmax: int)
    requires
        0 <= a <= amax,
        0 <= b <= bmax,
    ensures
        0 <= a * b <= amax * bmax,
{
    assert(0 <= a * b) by (nonlinear_arith)
        requires
            0 <= a,
            0 <= b,
    ;
    assert(a * b <= amax * bmax) by (nonlinear_arith)
        requires
            0 <= a <= amax,
            0 <= b <= bmax,
    ;
}

/// `x * num / den`, rounded toward zero, for a multiplier `num / den`.
pub fn scale_i64(x: i64, num: u64, den: u64) -> (r: i64)
    requires
        den > 0,
        num * 10 <= den * 11,
        den <= MAX_TUNING_MULTI,
        -VELOCITY_LIMIT <= x <= VELOCITY_LIMIT,
    ensures
        r == scale_toward_zero(x as int, num as int, den as int),
        abs(r as int) <= abs(x as int) * 11 / 10,
        num <= den ==> abs(r as int) <= abs(x as int),
{
    let mag: u128 = if x < 0 {
        (-(x as i128)) as u128
    } else {
        x as u128
    };
    proof {
        lemma_mul_bounded(mag as int, num as int, VELOCITY_LIMIT as int, MAX_TUNING_MULTI as int * 2);
    }
    let scaled: u128 = mag * (num as u128) / (den as u128);
    proof {
        let m = mag as int;
        let n = num as int;
        let d = den as int;
        assert(n * 10 <= d * 11);
        assert((m * n) / d <= m * 11 / 10) by (nonlinear_arith)
            requires
                m >= 0,
                n >= 0,
                d > 0,
                n * 10 <= d * 11,
        ;
        if n <= d {
            assert((m * n) / d <= m) by (nonlinear_arith)
                requires
                    m >= 0,
                    n >= 0,
                    d > 0,
                    n <= d,
            ;
        }
    }
    if x < 0 {
        -(scaled as i64)
    } else {
        scaled as i64
    }
}

} // verus!
