//! Fixed-point numbers.
//!
//! Every quantity in this crate is an `i64` that counts millionths: a length
//! of `1_500_000` is one and a half units, an angle of `1_570_796` is a little
//! under a quarter turn in radians, a factor of `100_000` is a tenth.
//! Arithmetic never wraps and never panics. A result too large for an `i64`
//! is held at the nearest bound, and a product is rounded toward zero, so
//! that negating one factor negates the product.

use vstd::prelude::*;

verus! {

/// The number one.
pub const ONE: i64 = 1_000_000;

/// The `i64` nearest to `v`.
pub open spec fn spec_saturate(v: int) -> i64 {
    if v < i64::MIN {
        i64::MIN
    } else if v > i64::MAX {
        i64::MAX
    } else {
        v as i64
    }
}

/// `n` millionths of a millionth brought back to millionths, rounded
/// toward zero.
pub open spec fn spec_rescale(n: int) -> int {
    if n >= 0 {
        n / 1_000_000
    } else {
        -((-n) / 1_000_000)
    }
}

pub open spec fn spec_sum(a: i64, b: i64) -> i64 {
    spec_saturate(a + b)
}

pub open spec fn spec_difference(a: i64, b: i64) -> i64 {
    spec_saturate(a - b)
}

pub open spec fn spec_negation(a: i64) -> i64 {
    spec_saturate(-a)
}

pub open spec fn spec_product(a: i64, b: i64) -> i64 {
    spec_saturate(spec_rescale(a * b))
}

pub open spec fn spec_clamp(v: i64, low: i64, high: i64) -> i64 {
    if v < low {
        low
    } else if v > high {
        high
    } else {
        v
    }
}

pub open spec fn spec_larger(a: i64, b: i64) -> i64 {
    if a >= b {
        a
    } else {
        b
    }
}

fn saturate(v: i128) -> (r: i64)
    ensures
        r == spec_saturate(v as int),
{
    if v < i64::MIN as i128 {
        i64::MIN
    } else if v > i64::MAX as i128 {
        i64::MAX
    } else {
        v as i64
    }
}

/// `a + b`, held within the range of `i64`.
pub fn sum(a: i64, b: i64) -> (r: i64)
    ensures
        r == spec_sum(a, b),
{
    saturate(a as i128 + b as i128)
}

/// `a - b`, held within the range of `i64`.
pub fn difference(a: i64, b: i64) -> (r: i64)
    ensures
        r == spec_difference(a, b),
{
    saturate(a as i128 - b as i128)
}

/// `-a`, held within the range of `i64`.
pub fn negation(a: i64) -> (r: i64)
    ensures
        r == spec_negation(a),
{
    saturate(-(a as i128))
}

/// `a * b` in millionths, rounded toward zero and held within the range of
/// `i64`.
pub fn product(a: i64, b: i64) -> (r: i64)
    ensures
        r == spec_product(a, b),
{
    assert(-0x4000_0000_0000_0000_0000_0000_0000_0000 <= a * b
        <= 0x4000_0000_0000_0000_0000_0000_0000_0000) by (nonlinear_arith)
        requires
            -0x8000_0000_0000_0000 <= a <= 0x7fff_ffff_ffff_ffff,
            -0x8000_0000_0000_0000 <= b <= 0x7fff_ffff_ffff_ffff,
    ;
    let wide: i128 = (a as i128) * (b as i128);
    let scale: i128 = 1_000_000;
    saturate(wide / scale)
}

/// `v` if it lies between `low` and `high`, else the bound it passed.
pub fn clamp(v: i64, low: i64, high: i64) -> (r: i64)
    ensures
        r == spec_clamp(v, low, high),
{
    if v < low {
        low
    } else if v > high {
        high
    } else {
        v
    }
}

/// The larger of `a` and `b`.
pub fn larger(a: i64, b: i64) -> (r: i64)
    ensures
        r == spec_larger(a, b),
{
    if a >= b {
        a
    } else {
        b
    }
}

/// Multiplying by one changes nothing, and multiplying by zero gives zero.
pub proof fn lemma_product_units(a: i64)
    ensures
        spec_product(a, ONE) == a,
        spec_product(ONE, a) == a,
        spec_product(a, 0) == 0,
        spec_product(0, a) == 0,
{
    assert(a * 1_000_000 == 1_000_000 * a);
    assert(a * 0 == 0 && 0 * a == 0) by (nonlinear_arith);
}

} // verus!
