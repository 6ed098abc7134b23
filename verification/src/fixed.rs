//! Fixed-point scalars.
//!
//! Lengths, angles and directions are whole numbers of millionths: a length
//! in millionths of a world unit, an angle in microradians, a direction
//! component in parts per million. Time is counted in microseconds. Sums
//! saturate at the ends of the `i64` range; quotients round toward zero, so
//! that a step and its opposite have the same size.

use vstd::prelude::*;

verus! {

/// One whole unit, in millionths.
pub const MICRO: i64 = 1_000_000;

/// The square of one whole unit: one, in millionths of millionths.
pub const MICRO_SQUARED: i64 = 1_000_000_000_000;

/// The nearest value of the `i64` range.
pub open spec fn clamp_i64(v: int) -> int {
    if v < i64::MIN as int {
        i64::MIN as int
    } else if v > i64::MAX as int {
        i64::MAX as int
    } else {
        v
    }
}

/// The quotient of `a` by a positive `d`, rounded toward zero.
pub open spec fn quot_toward_zero(a: int, d: int) -> int {
    if a >= 0 {
        a / d
    } else {
        -((-a) / d)
    }
}

/// The product of two fixed-point numbers: `a * b` millionths of millionths,
/// brought back to millionths and into range.
pub open spec fn micro_product(a: int, b: int) -> int {
    clamp_i64(quot_toward_zero(a * b, MICRO as int))
}

/// The quotient `a * n / d` of a fixed-point number by a ratio of counts,
/// rounded toward zero and brought into range.
pub open spec fn ratio_product(a: int, n: int, d: int) -> int {
    clamp_i64(quot_toward_zero(a * n, d))
}

/// The product of two 32-bit counts fits in 64 bits.
pub proof fn lemma_product_fits(a: u32, b: u32)
    ensures
        0 <= a * b <= 0xffff_fffe_0000_0001,
{
    assert(0 <= a * b <= 0xffff_fffe_0000_0001) by (nonlinear_arith)
        requires
            0 <= a <= 0xffff_ffff,
            0 <= b <= 0xffff_ffff,
    ;
}

/// `a + b`, saturating.
pub fn saturating_sum(a: i64, b: i64) -> (r: i64)
    ensures
        r as int == clamp_i64(a as int + b as int),
{
    if b > 0 && a > i64::MAX - b {
        i64::MAX
    } else if b < 0 && a < i64::MIN - b {
        i64::MIN
    } else {
        a + b
    }
}

/// `-a`, saturating: the opposite of the least value is the greatest.
pub fn saturating_neg(a: i64) -> (r: i64)
    ensures
        r as int == clamp_i64(-(a as int)),
{
    if a == i64::MIN {
        i64::MAX
    } else {
        -a
    }
}

/// Brings a wide value into the `i64` range.
pub fn clamp_wide(v: i128) -> (r: i64)
    ensures
        r as int == clamp_i64(v as int),
{
    if v < i64::MIN as i128 {
        i64::MIN
    } else if v > i64::MAX as i128 {
        i64::MAX
    } else {
        v as i64
    }
}

/// The quotient of a wide value by a positive divisor, rounded toward zero.
fn wide_quot(a: i128, d: i128) -> (r: i128)
    requires
        d > 0,
        a > i128::MIN,
    ensures
        r as int == quot_toward_zero(a as int, d as int),
{
    if a >= 0 {
        a / d
    } else {
        let m: i128 = -a;
        let q: i128 = m / d;
        -q
    }
}

/// The square of a 32-bit value, which 128 bits hold with room to add a few.
pub fn square(v: i32) -> (r: i128)
    ensures
        r == v * v,
        0 <= r <= 0x4000_0000_0000_0000,
{
    assert(0 <= v * v <= 0x4000_0000_0000_0000) by (nonlinear_arith)
        requires
            -0x8000_0000 <= v <= 0x7fff_ffff,
    ;
    (v as i128) * (v as i128)
}

/// The fixed-point product `a * b / MICRO`.
pub fn scale_micro(a: i64, b: i64) -> (r: i64)
    ensures
        r as int == micro_product(a as int, b as int),
{
    assert(-0x4000_0000_0000_0000_0000_0000_0000_0000 <= (a as int) * (b as int)
        <= 0x4000_0000_0000_0000_0000_0000_0000_0000) by (nonlinear_arith)
        requires
            -0x8000_0000_0000_0000 <= a as int <= 0x7fff_ffff_ffff_ffff,
            -0x8000_0000_0000_0000 <= b as int <= 0x7fff_ffff_ffff_ffff,
    ;
    let p: i128 = (a as i128) * (b as i128);
    clamp_wide(wide_quot(p, MICRO as i128))
}

/// The product `a * n / d` of a fixed-point number and a ratio of counts.
pub fn scale_ratio(a: i64, n: u32, d: i64) -> (r: i64)
    requires
        d > 0,
    ensures
        r as int == ratio_product(a as int, n as int, d as int),
{
    assert(-0x8000_0000_0000_0000_0000_0000 <= (a as int) * (n as int)
        <= 0x8000_0000_0000_0000_0000_0000) by (nonlinear_arith)
        requires
            -0x8000_0000_0000_0000 <= a as int <= 0x7fff_ffff_ffff_ffff,
            0 <= n as int <= 0xffff_ffff,
    ;
    let p: i128 = (a as i128) * (n as i128);
    clamp_wide(wide_quot(p, d as i128))
}

} // verus!
