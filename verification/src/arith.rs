//! Division and remainder that round toward negative infinity.
//!
//! The built-in `/` and `%` round toward zero, which is wrong for every
//! wrap-around on a negative angle, time or day count.

use vstd::prelude::*;
use vstd::arithmetic::div_mod::{lemma_fundamental_div_mod, lemma_fundamental_div_mod_converse};

verus! {

/// The quotient of `n` by a positive `d`, rounded down.
pub fn floor_div(n: i128, d: i128) -> (quotient: i128)
    requires
        d > 0,
        n > i128::MIN,
    ensures
        quotient == n as int / d as int,
{
    if n >= 0 {
        n / d
    } else {
        let size: i128 = -n;
        let q: i128 = size / d;
        let over: i128 = size % d;
        proof {
            lemma_fundamental_div_mod(size as int, d as int);
            assert(q * d <= size) by (nonlinear_arith)
                requires
                    size == d * q + over,
                    over >= 0,
            ;
            assert(q <= size) by (nonlinear_arith)
                requires
                    q * d <= size,
                    d >= 1,
                    q >= 0,
            ;
        }
        if over == 0 {
            proof {
                assert(n as int == (-q) * d + 0) by (nonlinear_arith)
                    requires
                        size == d * q + over,
                        over == 0,
                        n == -size,
                ;
                lemma_fundamental_div_mod_converse(n as int, d as int, -(q as int), 0);
            }
            -q
        } else {
            proof {
                assert(n as int == (-q - 1) * d + (d - over)) by (nonlinear_arith)
                    requires
                        size == d * q + over,
                        n == -size,
                ;
                lemma_fundamental_div_mod_converse(
                    n as int,
                    d as int,
                    -(q as int) - 1,
                    d as int - over as int,
                );
            }
            -q - 1
        }
    }
}

/// The remainder of `n` by a positive `d`, never negative.
pub fn floor_mod(n: i64, d: i64) -> (remainder: i64)
    requires
        d > 0,
    ensures
        remainder == n as int % d as int,
        0 <= remainder < d,
{
    if n >= 0 {
        n % d
    } else {
        let size: i128 = -(n as i128);
        let q: i128 = size / (d as i128);
        let over: i128 = size % (d as i128);
        proof {
            lemma_fundamental_div_mod(size as int, d as int);
        }
        if over == 0 {
            proof {
                assert(n as int == (-q) * d + 0) by (nonlinear_arith)
                    requires
                        size == d * q + over,
                        over == 0,
                        n == -size,
                ;
                lemma_fundamental_div_mod_converse(n as int, d as int, -(q as int), 0);
            }
            0
        } else {
            proof {
                assert(n as int == (-q - 1) * d + (d - over)) by (nonlinear_arith)
                    requires
                        size == d * q + over,
                        n == -size,
                ;
                lemma_fundamental_div_mod_converse(
                    n as int,
                    d as int,
                    -(q as int) - 1,
                    d as int - over as int,
                );
            }
            (d as i128 - over) as i64
        }
    }
}

/// The remainder of a wide `n` by a positive `d`, never negative.
pub fn wrap(n: i128, d: i128) -> (remainder: i128)
    requires
        0 < d <= 1000000000000000000000,
        -100000000000000000000000000000000000 <= n <= 100000000000000000000000000000000000,
    ensures
        remainder == n as int % d as int,
        0 <= remainder < d,
{
    let q: i128 = floor_div(n, d);
    proof {
        vstd::arithmetic::div_mod::lemma_fundamental_div_mod(n as int, d as int);
        vstd::arithmetic::div_mod::lemma_mod_bound(n as int, d as int);
        assert(d * q == n - (n as int % d as int));
    }
    n - d * q
}

/// `n / d` rounded to the nearest integer, halves upward.
pub fn rounded_ratio(n: i128, d: i128) -> (rounded: i128)
    requires
        0 < d <= 1000000000000000000000,
        -100000000000000000000000000000000000000 <= n <= 100000000000000000000000000000000000000,
    ensures
        rounded == (2 * n + d) / (2 * d),
{
    let q: i128 = floor_div(n, d);
    proof {
        vstd::arithmetic::div_mod::lemma_fundamental_div_mod(n as int, d as int);
        vstd::arithmetic::div_mod::lemma_mod_bound(n as int, d as int);
        assert(d * q == n - (n as int % d as int));
        assert(-110000000000000000000000000000000000000 <= q
            <= 110000000000000000000000000000000000000) by (nonlinear_arith)
            requires
                -110000000000000000000000000000000000000 <= d * q
                    <= 110000000000000000000000000000000000000,
                d >= 1,
        ;
    }
    let r: i128 = n - d * q;
    proof {
        let up: int = if 2 * r >= d { 1 } else { 0 };
        assert(2 * n + d == (q + up) * (2 * d) + (2 * r + d - 2 * d * up)) by (nonlinear_arith)
            requires
                r == n - d * q,
        ;
        vstd::arithmetic::div_mod::lemma_fundamental_div_mod_converse(
            2 * n + d,
            2 * d,
            q + up,
            2 * r + d - 2 * d * up,
        );
    }
    if 2 * r >= d {
        q + 1
    } else {
        q
    }
}

} // verus!
