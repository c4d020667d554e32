//! Saturating fixed-point arithmetic with nine decimal places.
//!
//! Every quantity of the library (metres, seconds, bar, gas fractions,
//! percents) is an `i64` count of billionths. All operations are total: a
//! result that leaves the range of `i64` stops at the nearest bound, and a
//! quotient is rounded towards negative infinity.
use vstd::prelude::*;
use vstd::arithmetic::div_mod::lemma_fundamental_div_mod_converse;

verus! {

/// A fixed-point number: the value times `SCALE`.
pub type Fixed = i64;

/// The number of units in one.
pub const SCALE: i64 = 1_000_000_000;

/// The nearest `i64` to `x`.
pub open spec fn saturate(x: int) -> i64 {
    if x < i64::MIN {
        i64::MIN
    } else if x > i64::MAX {
        i64::MAX
    } else {
        x as i64
    }
}

/// The floor of `n / d`; for `d == 0` the bound of `i64` on the side of `n`.
pub open spec fn floor_ratio(n: int, d: int) -> int {
    if d > 0 {
        n / d
    } else if d < 0 {
        (-n) / (-d)
    } else if n > 0 {
        i64::MAX as int
    } else if n < 0 {
        i64::MIN as int
    } else {
        0
    }
}

/// The sum, stopped at the bounds of `i64`.
pub open spec fn plus_spec(a: i64, b: i64) -> i64 {
    saturate(a + b)
}

/// The difference, stopped at the bounds of `i64`.
pub open spec fn minus_spec(a: i64, b: i64) -> i64 {
    saturate(a - b)
}

/// The product of two fixed-point numbers, rounded down.
#[verifier::opaque]
pub open spec fn times_spec(a: i64, b: i64) -> i64 {
    saturate(floor_ratio(a * b, SCALE as int))
}

/// The quotient of two fixed-point numbers, rounded down.
#[verifier::opaque]
pub open spec fn over_spec(a: i64, b: i64) -> i64 {
    saturate(floor_ratio(a * SCALE, b as int))
}

/// `a * num / den`, rounded once.
#[verifier::opaque]
pub open spec fn scaled_spec(a: i64, num: i64, den: i64) -> i64 {
    saturate(floor_ratio(a * num, den as int))
}

/// The whole number `n` as a fixed-point number.
pub open spec fn from_int_spec(n: i32) -> i64 {
    (n * SCALE) as i64
}

/// The least multiple of `step` that is not below `x`, for a positive `step`.
#[verifier::opaque]
pub open spec fn ceil_to_spec(x: i64, step: i64) -> i64 {
    saturate(-saturate(floor_ratio(-x, step as int)) * step)
}

/// The whole part of `x`, rounded towards zero.
#[verifier::opaque]
pub open spec fn whole_spec(x: i64) -> i64 {
    if x >= 0 {
        (x / SCALE) as i64
    } else {
        (-((-x) / (SCALE as int))) as i64
    }
}

proof fn product_bound(a: int, b: int, m: int)
    requires
        -m <= a <= m,
        -m <= b <= m,
    ensures
        -(m * m) <= a * b <= m * m,
{
    assert(-(m * m) <= a * b <= m * m) by (nonlinear_arith)
        requires
            -m <= a <= m,
            -m <= b <= m,
    ;
}

/// The nearest `i64` to a wide number.
pub fn narrow(x: i128) -> (r: i64)
    ensures
        r == saturate(x as int),
{
    if x < -9_223_372_036_854_775_808i128 {
        i64::MIN
    } else if x > 9_223_372_036_854_775_807i128 {
        i64::MAX
    } else {
        x as i64
    }
}

/// The quotient of two wide numbers, rounded down and stopped at the bounds
/// of `i64`.
pub fn ratio(n: i128, d: i128) -> (r: i64)
    requires
        n > i128::MIN,
        d > i128::MIN,
    ensures
        r == saturate(floor_ratio(n as int, d as int)),
{
    if d == 0 {
        if n > 0 {
            i64::MAX
        } else if n < 0 {
            i64::MIN
        } else {
            0
        }
    } else {
        let (num, den): (i128, i128) = if d > 0 {
            (n, d)
        } else {
            (-n, -d)
        };
        assert(floor_ratio(n as int, d as int) == num as int / den as int);
        if num >= 0 {
            narrow(num / den)
        } else {
            let pos: i128 = -num;
            let q: i128 = pos / den;
            let rem: i128 = pos % den;
            proof {
                assert(pos == q * den + rem) by (nonlinear_arith)
                    requires
                        q == pos as int / den as int,
                        rem == pos as int % den as int,
                        den > 0,
                ;
            }
            if rem == 0 {
                proof {
                    assert(num == (-q) * den + 0) by (nonlinear_arith)
                        requires
                            pos == q * den + rem,
                            rem == 0,
                            num == -pos,
                    ;
                    lemma_fundamental_div_mod_converse(num as int, den as int, -q as int, 0);
                }
                narrow(-q)
            } else {
                proof {
                    assert(num == (-q - 1) * den + (den - rem)) by (nonlinear_arith)
                        requires
                            pos == q * den + rem,
                            num == -pos,
                    ;
                    lemma_fundamental_div_mod_converse(
                        num as int,
                        den as int,
                        -q - 1,
                        den - rem,
                    );
                }
                narrow(-q - 1)
            }
        }
    }
}

/// The sum of two fixed-point numbers.
#[verifier::when_used_as_spec(plus_spec)]
pub fn plus(a: Fixed, b: Fixed) -> (r: Fixed)
    ensures
        r == plus_spec(a, b),
{
    narrow(a as i128 + b as i128)
}

/// The difference of two fixed-point numbers.
#[verifier::when_used_as_spec(minus_spec)]
pub fn minus(a: Fixed, b: Fixed) -> (r: Fixed)
    ensures
        r == minus_spec(a, b),
{
    narrow(a as i128 - b as i128)
}

/// The product of two fixed-point numbers.
#[verifier::when_used_as_spec(times_spec)]
pub fn times(a: Fixed, b: Fixed) -> (r: Fixed)
    ensures
        r == times_spec(a, b),
{
    proof {
        reveal(times_spec);
        product_bound(a as int, b as int, 0x8000_0000_0000_0000);
    }
    ratio(a as i128 * b as i128, SCALE as i128)
}

/// The quotient of two fixed-point numbers.
#[verifier::when_used_as_spec(over_spec)]
pub fn over(a: Fixed, b: Fixed) -> (r: Fixed)
    ensures
        r == over_spec(a, b),
{
    proof {
        reveal(over_spec);
        product_bound(a as int, SCALE as int, 0x8000_0000_0000_0000);
    }
    ratio(a as i128 * SCALE as i128, b as i128)
}

/// `a * num / den`, rounded once at the end.
#[verifier::when_used_as_spec(scaled_spec)]
pub fn scaled(a: Fixed, num: i64, den: i64) -> (r: Fixed)
    ensures
        r == scaled_spec(a, num, den),
{
    proof {
        reveal(scaled_spec);
        product_bound(a as int, num as int, 0x8000_0000_0000_0000);
    }
    ratio(a as i128 * num as i128, den as i128)
}

/// The whole number `n` as a fixed-point number.
#[verifier::when_used_as_spec(from_int_spec)]
pub fn from_int(n: i32) -> (r: Fixed)
    ensures
        r == from_int_spec(n),
        r == n * SCALE,
{
    proof {
        product_bound(n as int, SCALE as int, 0x8000_0000);
    }
    n as i64 * SCALE
}

/// The fixed-point number nearest below `num / den`.
pub fn from_ratio(num: i64, den: i64) -> (r: Fixed)
    ensures
        r == scaled_spec(num, SCALE, den),
{
    scaled(num, SCALE, den)
}

/// `x` rounded up to a multiple of `step`.
#[verifier::when_used_as_spec(ceil_to_spec)]
pub fn ceil_to(x: Fixed, step: Fixed) -> (r: Fixed)
    requires
        step > 0,
    ensures
        r == ceil_to_spec(x, step),
{
    let down: i64 = ratio(-(x as i128), step as i128);
    proof {
        reveal(ceil_to_spec);
        product_bound(-down as int, step as int, 0x8000_0000_0000_0000);
    }
    narrow(-(down as i128) * step as i128)
}

/// The whole part of `x`, rounded towards zero.
#[verifier::when_used_as_spec(whole_spec)]
pub fn whole(x: Fixed) -> (r: i64)
    ensures
        r == whole_spec(x),
{
    proof {
        reveal(whole_spec);
    }
    if x >= 0 {
        x / SCALE
    } else {
        let pos: i128 = -(x as i128);
        let q: i128 = pos / (SCALE as i128);
        (-q) as i64
    }
}

/// Rounding up to a multiple of a positive step never comes out below the
/// number that was rounded, nor below zero for a number that is not.
pub proof fn ceil_to_at_least(x: i64, step: i64)
    requires
        step > 0,
        x >= 0,
    ensures
        ceil_to_spec(x, step) >= x,
        ceil_to_spec(x, step) >= 0,
{
    reveal(ceil_to_spec);
    let q = (-x) / (step as int);
    let r = (-x) % (step as int);
    vstd::arithmetic::div_mod::lemma_fundamental_div_mod(-x, step as int);
    vstd::arithmetic::div_mod::lemma_mod_bound(-x, step as int);
    assert(-x == step * q + r);
    assert(q <= 0 && q >= -x) by (nonlinear_arith)
        requires
            -x == step * q + r,
            0 <= r < step,
            x >= 0,
            step >= 1,
    ;
    assert(saturate(q) == q);
    assert(-q * step == x + r) by (nonlinear_arith)
        requires
            -x == step * q + r,
    ;
}

/// Rounding up to a multiple of a positive step gives the least multiple
/// that is not below the number, where that multiple is in range.
pub proof fn ceil_to_is_least_multiple(x: i64, step: i64)
    requires
        step > 0,
        x > i64::MIN,
        x + step <= i64::MAX,
    ensures
        (ceil_to_spec(x, step) as int) % (step as int) == 0,
        x <= ceil_to_spec(x, step) < x + step,
{
    reveal(ceil_to_spec);
    let q = (-x) / (step as int);
    let r = (-x) % (step as int);
    vstd::arithmetic::div_mod::lemma_fundamental_div_mod(-x, step as int);
    vstd::arithmetic::div_mod::lemma_mod_bound(-x, step as int);
    assert(i64::MIN <= q <= i64::MAX) by (nonlinear_arith)
        requires
            -x == step * q + r,
            0 <= r < step,
            i64::MIN < x <= i64::MAX,
            step >= 1,
    ;
    assert(-q * step == x + r) by (nonlinear_arith)
        requires
            -x == step * q + r,
    ;
    vstd::arithmetic::div_mod::lemma_mod_multiples_basic(-q, step as int);
}

/// Dividing a number that is not negative by a fraction in `(0, 1]` does
/// not make it smaller.
pub proof fn over_fraction_at_least(a: i64, b: i64)
    requires
        a >= 0,
        0 < b <= SCALE,
    ensures
        over_spec(a, b) >= a,
{
    reveal(over_spec);
    let n = a * SCALE;
    let q = n / (b as int);
    let r = n % (b as int);
    vstd::arithmetic::div_mod::lemma_fundamental_div_mod(n, b as int);
    vstd::arithmetic::div_mod::lemma_mod_bound(n, b as int);
    assert(q >= a) by (nonlinear_arith)
        requires
            n == b * q + r,
            0 <= r < b,
            n == a * SCALE,
            0 < b <= SCALE,
            a >= 0,
    ;
}

/// Multiplying by a whole number: `scaled(a, n, 1)` is `a * n`, capped.
pub proof fn scaled_by_whole(a: i64, n: i64)
    ensures
        scaled_spec(a, n, 1) == saturate(a * n),
{
    reveal(scaled_spec);
}

/// A step of the whole way: `a * 1` is `a`.
pub proof fn times_one(a: i64)
    ensures
        times_spec(a, SCALE) == a,
{
    reveal(times_spec);
    assert((a * SCALE) / (SCALE as int) == a) by (nonlinear_arith);
}

/// No step at all: `a * 0` is nought.
pub proof fn times_zero(a: i64)
    ensures
        times_spec(a, 0) == 0,
{
    reveal(times_spec);
    assert(a * 0 == 0);
}

/// The nearest `i64` keeps the order.
pub proof fn saturate_monotone(a: int, b: int)
    requires
        a <= b,
    ensures
        saturate(a) <= saturate(b),
{
}

/// A product keeps the order of its first factor where the second is not
/// negative.
pub proof fn times_monotone(a: i64, b: i64, factor: i64)
    requires
        a <= b,
        factor >= 0,
    ensures
        times_spec(a, factor) <= times_spec(b, factor),
{
    reveal(times_spec);
    assert(a * factor <= b * factor) by (nonlinear_arith)
        requires
            a <= b,
            factor >= 0,
    ;
    vstd::arithmetic::div_mod::lemma_div_is_ordered(a * factor, b * factor, SCALE as int);
}

/// Nought times anything is nought.
pub proof fn zero_times(factor: i64)
    ensures
        times_spec(0, factor) == 0,
{
    reveal(times_spec);
    assert(0 * factor == 0);
}

/// A fraction of a number that is not negative is not more than the number,
/// and not negative.
pub proof fn times_fraction_at_most(a: i64, fraction: i64)
    requires
        a >= 0,
        0 <= fraction <= SCALE,
    ensures
        0 <= times_spec(a, fraction) <= a,
{
    reveal(times_spec);
    let part = (a * fraction) / (SCALE as int);
    assert(0 <= part <= a) by (nonlinear_arith)
        requires
            a >= 0,
            0 <= fraction <= SCALE,
            part == (a * fraction) / (SCALE as int),
            SCALE == 1_000_000_000,
    ;
}

/// A quotient of a number that is not negative by a positive one is not
/// negative.
pub proof fn over_nonnegative(a: i64, b: i64)
    requires
        a >= 0,
        b > 0,
    ensures
        over_spec(a, b) >= 0,
{
    reveal(over_spec);
    let n = a * SCALE;
    assert(n / (b as int) >= 0) by (nonlinear_arith)
        requires
            n >= 0,
            b > 0,
    ;
    assert(n >= 0) by (nonlinear_arith)
        requires
            n == a * SCALE,
            a >= 0,
            SCALE == 1_000_000_000,
    ;
}

/// Scaling by a ratio that is not negative keeps the order.
pub proof fn scaled_monotone(a: i64, b: i64, num: i64, den: i64)
    requires
        a <= b,
        num >= 0,
        den > 0,
    ensures
        scaled_spec(a, num, den) <= scaled_spec(b, num, den),
{
    reveal(scaled_spec);
    assert(a * num <= b * num) by (nonlinear_arith)
        requires
            a <= b,
            num >= 0,
    ;
    vstd::arithmetic::div_mod::lemma_div_is_ordered(a * num, b * num, den as int);
}

/// Rounding up to a multiple of a positive step keeps the order.
pub proof fn ceil_to_monotone(a: i64, b: i64, step: i64)
    requires
        a <= b,
        step > 0,
    ensures
        ceil_to_spec(a, step) <= ceil_to_spec(b, step),
{
    reveal(ceil_to_spec);
    vstd::arithmetic::div_mod::lemma_div_is_ordered(-b, -a, step as int);
    let qa = saturate((-a) / (step as int));
    let qb = saturate((-b) / (step as int));
    assert(qb <= qa);
    assert(-qa * step <= -qb * step) by (nonlinear_arith)
        requires
            qb <= qa,
            step > 0,
    ;
}

} // verus!
