//! Positions and speeds are whole numbers of thousandths of a pixel, so that
//! every run of the simulation is exactly reproducible on every host.

use vstd::prelude::*;

verus! {

/// How many position units make one pixel.
pub const UNITS_PER_PX: i64 = 1000;

/// How many position units make half a pixel.
pub const UNITS_PER_HALF_PX: i64 = 500;

/// Largest magnitude a position may have where it is scaled or eased.
pub const UNIT_LIMIT: i64 = 0x1_0000_0000_0000;

/// `value` bounded to `[lo, hi]`.
pub open spec fn clamp_spec(value: int, lo: int, hi: int) -> int {
    if value < lo {
        lo
    } else if value > hi {
        hi
    } else {
        value
    }
}

/// Quotient of `a` by a positive `b`, rounded toward zero.
pub open spec fn trunc_div(a: int, b: int) -> int {
    if a >= 0 {
        a / b
    } else {
        -((-a) / b)
    }
}

/// The pixel a position falls on: the position over `UNITS_PER_PX`, rounded
/// toward zero and held to the range of `i32`.
pub open spec fn px_of(v: int) -> int {
    clamp_spec(trunc_div(v, UNITS_PER_PX as int), i32::MIN as int, i32::MAX as int)
}

/// `percent` hundredths of `v`, rounded toward zero.
pub open spec fn scale_spec(v: int, percent: int) -> int {
    trunc_div(v * percent, 100)
}

/// One easing step: `current` moved `percent` hundredths of the way to `target`.
pub open spec fn ease_spec(current: int, target: int, percent: int) -> int {
    current + scale_spec(target - current, percent)
}

/// Calls `num::clamp` on three `i64`. That function returns `min` when
/// `input < min`, `max` when `input > max` and `input` otherwise, and asserts
/// `min <= max` in debug builds.
#[verifier::external_body]
fn clamp_i64(input: i64, min: i64, max: i64) -> (r: i64)
    requires
        min <= max,
    ensures
        r == clamp_spec(input as int, min as int, max as int),
{
    num::clamp(input, min, max)
}

/// `value` bounded to `[lo, hi]`.
pub fn clamp(value: i64, lo: i64, hi: i64) -> (r: i64)
    requires
        lo <= hi,
    ensures
        r == clamp_spec(value as int, lo as int, hi as int),
        lo <= r <= hi,
{
    clamp_i64(value, lo, hi)
}

/// Quotient of `a` by a positive `b`, rounded toward zero.
pub fn div_toward_zero(a: i64, b: i64) -> (q: i64)
    requires
        b > 0,
        a > i64::MIN,
    ensures
        q == trunc_div(a as int, b as int),
        a >= 0 ==> 0 <= q <= a,
        a <= 0 ==> a <= q <= 0,
{
    if a >= 0 {
        let q: i64 = a / b;
        assert(0 <= q <= a) by (nonlinear_arith)
            requires
                q == a as int / b as int,
                a >= 0,
                b > 0,
        ;
        q
    } else {
        let n: i64 = -a;
        let q: i64 = n / b;
        assert(0 <= q <= n) by (nonlinear_arith)
            requires
                q == n as int / b as int,
                n >= 0,
                b > 0,
        ;
        -q
    }
}

/// The pixel a position falls on.
pub fn to_px(v: i64) -> (p: i32)
    ensures
        p == px_of(v as int),
{
    if v >= 2147483648000 {
        assert(v as int / 1000 >= 2147483648) by (nonlinear_arith)
            requires
                v >= 2147483648000,
        ;
        i32::MAX
    } else if v <= -2147483649000 {
        assert((-(v as int)) / 1000 >= 2147483649) by (nonlinear_arith)
            requires
                v <= -2147483649000,
        ;
        i32::MIN
    } else {
        let q: i64 = div_toward_zero(v, UNITS_PER_PX);
        assert(-2147483648 <= q <= 2147483647) by (nonlinear_arith)
            requires
                q == trunc_div(v as int, 1000),
                -2147483649000 < v < 2147483648000,
        ;
        q as i32
    }
}

/// The position of the left or top edge of pixel `p`.
pub fn from_px(p: i32) -> (v: i64)
    ensures
        v == p * UNITS_PER_PX,
        px_of(v as int) == p,
{
    let v: i64 = (p as i64) * UNITS_PER_PX;
    assert(px_of(v as int) == p) by (nonlinear_arith)
        requires
            v == p * 1000,
            i32::MIN <= p <= i32::MAX,
    ;
    v
}

/// `percent` hundredths of `v`, rounded toward zero.
pub fn scale_percent(v: i64, percent: i64) -> (r: i64)
    requires
        -2 * UNIT_LIMIT <= v <= 2 * UNIT_LIMIT,
        0 <= percent <= 100,
    ensures
        r == scale_spec(v as int, percent as int),
        v >= 0 ==> 0 <= r <= v,
        v <= 0 ==> v <= r <= 0,
{
    assert(-200 * UNIT_LIMIT <= v * percent <= 200 * UNIT_LIMIT && (v >= 0 ==> 0 <= v * percent
        <= 100 * v) && (v <= 0 ==> 100 * v <= v * percent <= 0)) by (nonlinear_arith)
        requires
            -2 * UNIT_LIMIT <= v <= 2 * UNIT_LIMIT,
            0 <= percent <= 100,
    ;
    let scaled: i64 = v * percent;
    let r: i64 = div_toward_zero(scaled, 100);
    assert((v >= 0 ==> r <= v) && (v <= 0 ==> v <= r)) by (nonlinear_arith)
        requires
            r == trunc_div(scaled as int, 100),
            v >= 0 ==> 0 <= scaled <= 100 * v,
            v <= 0 ==> 100 * v <= scaled <= 0,
    ;
    r
}

/// One easing step of `current` toward `target`. The result lies between the two.
pub fn ease(current: i64, target: i64, percent: i64) -> (r: i64)
    requires
        -UNIT_LIMIT <= current <= UNIT_LIMIT,
        -UNIT_LIMIT <= target <= UNIT_LIMIT,
        0 <= percent <= 100,
    ensures
        r == ease_spec(current as int, target as int, percent as int),
        current <= target ==> current <= r <= target,
        target <= current ==> target <= r <= current,
{
    current + scale_percent(target - current, percent)
}

} // verus!
