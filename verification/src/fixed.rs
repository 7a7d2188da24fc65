//! Fixed-point numbers.
//!
//! A length, a velocity or a scale is an `i64` counted in millionths of a
//! world unit. Sums saturate at the ends of the `i64` range instead of
//! wrapping, and a product with a ratio rounds toward zero, so that a
//! quantity and its mirror image behave alike.

use vstd::prelude::*;

verus! {

/// One world unit.
pub const UNIT: i64 = 1_000_000;

/// The `i64` nearest to `x`.
pub open spec fn sat(x: int) -> i64 {
    if x < i64::MIN {
        i64::MIN
    } else if x > i64::MAX {
        i64::MAX
    } else {
        x as i64
    }
}

/// `|v|`, saturated: the magnitude of `i64::MIN` is `i64::MAX`.
pub open spec fn magnitude(v: i64) -> i64 {
    if v >= 0 {
        v
    } else {
        sat(-v)
    }
}

/// `x * num / den`, rounded toward zero.
pub open spec fn ratio(x: int, num: int, den: int) -> int {
    if x >= 0 {
        (x * num) / den
    } else {
        -(((-x) * num) / den)
    }
}

/// `x` scaled by `num / den`, rounded toward zero.
pub open spec fn scaled(x: i64, num: i64, den: i64) -> i64 {
    ratio(x as int, num as int, den as int) as i64
}

/// A ratio between zero and one never lengthens what it scales, and
/// keeps its sign.
pub proof fn lemma_ratio_shrinks(x: int, num: int, den: int)
    requires
        0 <= num <= den,
        0 < den,
    ensures
        x >= 0 ==> 0 <= ratio(x, num, den) <= x,
        x <= 0 ==> x <= ratio(x, num, den) <= 0,
{
    let m: int = if x >= 0 { x } else { -x };
    assert(0 <= (m * num) / den <= m) by (nonlinear_arith)
        requires
            0 <= m,
            0 <= num <= den,
            0 < den,
    ;
}

/// Adds two quantities, saturating.
pub fn sat_add(a: i64, b: i64) -> (sum: i64)
    ensures
        sum == sat(a + b),
{
    let wide: i128 = a as i128 + b as i128;
    if wide < i64::MIN as i128 {
        i64::MIN
    } else if wide > i64::MAX as i128 {
        i64::MAX
    } else {
        wide as i64
    }
}

/// Subtracts `b` from `a`, saturating.
pub fn sat_sub(a: i64, b: i64) -> (difference: i64)
    ensures
        difference == sat(a - b),
{
    let wide: i128 = a as i128 - b as i128;
    if wide < i64::MIN as i128 {
        i64::MIN
    } else if wide > i64::MAX as i128 {
        i64::MAX
    } else {
        wide as i64
    }
}

/// The saturated magnitude of `v`.
pub fn sat_abs(v: i64) -> (m: i64)
    ensures
        m == magnitude(v),
        m >= 0,
{
    if v >= 0 {
        v
    } else if v == i64::MIN {
        i64::MAX
    } else {
        -v
    }
}

/// Scales `x` by the ratio `num / den`, rounding toward zero.
pub fn scale(x: i64, num: i64, den: i64) -> (y: i64)
    requires
        0 <= num <= den,
        0 < den,
    ensures
        y == scaled(x, num, den),
{
    proof {
        lemma_ratio_shrinks(x as int, num as int, den as int);
    }
    let m: i128 = if x >= 0 { x as i128 } else { -(x as i128) };
    assert(0 <= m * (num as i128) <= 0x4000_0000_0000_0000_0000_0000_0000_0000) by (nonlinear_arith)
        requires
            0 <= m <= 0x8000_0000_0000_0000,
            0 <= num <= 0x7fff_ffff_ffff_ffff,
    ;
    let part: i128 = m * (num as i128) / (den as i128);
    if x >= 0 {
        part as i64
    } else {
        (-part) as i64
    }
}

} // verus!
