//! Julian centuries in fixed point, and series in them.
//!
//! The slow changes of the sky are given as polynomials in `T`, the Julian
//! centuries of 36525 days from an epoch to a Julian date. Here `T` counts
//! million-millionths of a century, about three thousandths of a second, and
//! a polynomial is worked from its highest term down: each product of a
//! coefficient with `T` is rounded to the nearest whole unit before the next
//! coefficient is added.

use vstd::prelude::*;
use crate::arith::rounded_ratio;
use crate::sexagesimal::round_div;

verus! {

/// Julian date of the epoch 2000 January 1.5, in billionths of a day.
pub const EPOCH_2000: i64 = 2451545000000000;

/// Julian date of the epoch 1900 January 0.5, in billionths of a day.
pub const EPOCH_1900: i64 = 2415020000000000;

/// Julian centuries from an epoch to a Julian date, both in billionths of a
/// day, in million-millionths of a century, rounded to the nearest: a
/// billionth of a day is 40/1461 of that unit.
pub open spec fn centuries_between(julian_date: int, epoch: int) -> int {
    round_div((julian_date - epoch) * 40, 1461)
}

/// The product of a coefficient and a count of centuries, rounded to the
/// nearest whole unit of the coefficient.
pub open spec fn times_centuries(coefficient: int, centuries: int) -> int {
    round_div(coefficient * centuries, 1000000000000)
}

/// The quadratic `c0 + c1 T + c2 T^2`, worked as `c0 + (c1 + c2 T) T`.
pub open spec fn quadratic_in(c0: int, c1: int, c2: int, centuries: int) -> int {
    c0 + times_centuries(c1 + times_centuries(c2, centuries), centuries)
}

/// Julian centuries from an epoch to a Julian date.
pub(crate) fn centuries(julian_date: i128, epoch: i64) -> (t: i128)
    requires
        -2000000000000000000000 <= julian_date <= 2000000000000000000000,
    ensures
        t == centuries_between(julian_date as int, epoch as int),
        -60000000000000000000 <= t <= 60000000000000000000,
{
    let t: i128 = rounded_ratio((julian_date - epoch as i128) * 40, 1461);
    proof {
        vstd::arithmetic::div_mod::lemma_fundamental_div_mod(
            2 * ((julian_date - epoch) * 40) + 1461,
            2922,
        );
    }
    t
}

/// The product of a coefficient and a count of centuries, rounded.
pub(crate) fn times(coefficient: i128, t: i128) -> (product: i128)
    requires
        -100000000000000000 <= coefficient <= 100000000000000000,
        -60000000000000000000 <= t <= 60000000000000000000,
    ensures
        product == times_centuries(coefficient as int, t as int),
        coefficient >= 0 ==> -60000000 * coefficient - 1 <= product <= 60000000 * coefficient + 1,
        coefficient <= 0 ==> 60000000 * coefficient - 1 <= product <= -60000000 * coefficient + 1,
{
    assert(-6000000000000000000000000000000000000 <= coefficient * t
        <= 6000000000000000000000000000000000000) by (nonlinear_arith)
        requires
            -100000000000000000 <= coefficient <= 100000000000000000,
            -60000000000000000000 <= t <= 60000000000000000000,
    ;
    assert(coefficient >= 0 ==> -60000000000000000000 * coefficient <= coefficient * t
        <= 60000000000000000000 * coefficient) by (nonlinear_arith)
        requires
            -60000000000000000000 <= t <= 60000000000000000000,
    ;
    assert(coefficient <= 0 ==> 60000000000000000000 * coefficient <= coefficient * t
        <= -60000000000000000000 * coefficient) by (nonlinear_arith)
        requires
            -60000000000000000000 <= t <= 60000000000000000000,
    ;
    let product: i128 = rounded_ratio(coefficient * t, 1000000000000);
    proof {
        vstd::arithmetic::div_mod::lemma_fundamental_div_mod(
            2 * (coefficient * t) + 1000000000000,
            2000000000000,
        );
    }
    product
}

/// Evaluates a quadratic in the centuries `t`.
pub(crate) fn quadratic(c0: i64, c1: i64, c2: i64, t: i128) -> (value: i128)
    requires
        -1000000000000 <= c0 <= 1000000000000,
        -100000000000000 <= c1 <= 100000000000000,
        -1000000 <= c2 <= 1000000,
        -60000000000000000000 <= t <= 60000000000000000000,
    ensures
        value == quadratic_in(c0 as int, c1 as int, c2 as int, t as int),
        -20000000000000000000000 <= value <= 20000000000000000000000,
{
    let high: i128 = times(c2 as i128, t);
    let low: i128 = times(c1 as i128 + high, t);
    c0 as i128 + low
}

} // verus!
