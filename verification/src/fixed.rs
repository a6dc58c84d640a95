//! Fixed-point arithmetic for outline scaling.
//!
//! Scaled coordinates and scale factors are 26.6 fixed-point numbers held
//! in `i32`; component transform entries are 2.14. Every operation keeps
//! its exact mathematical value whenever that value fits in `i32` and
//! saturates at the `i32` range otherwise, so results agree bit for bit
//! with the classic rasterizer on every value it computes without
//! overflow. `sat32` pins the saturated value in contracts and
//! `floor_div` gives the rounding direction of an arithmetic shift.

use vstd::prelude::*;

verus! {

/// The identity scale factor stored in unscaled mode (bit pattern 0x10000).
pub const UNSCALED_FACTOR: i32 = 0x10000;

/// Clamp of an unbounded integer into the `i32` range.
pub open spec fn sat32(x: int) -> int {
    if x < -0x8000_0000 {
        -0x8000_0000
    } else if x > 0x7FFF_FFFF {
        0x7FFF_FFFF
    } else {
        x
    }
}

/// Division rounding toward negative infinity, the meaning of an
/// arithmetic right shift when `d` is a power of two.
pub open spec fn floor_div(x: int, d: int) -> int
    recommends
        d > 0,
{
    if x >= 0 {
        x / d
    } else {
        -((-x + d - 1) / d)
    }
}

/// Product of a 26.6 value and a 26.6 factor, rounded to nearest.
pub open spec fn spec_mul26(a: int, b: int) -> int {
    sat32(floor_div(a * b + 32, 64))
}

/// Product of a value and a 2.14 transform entry, rounded to nearest.
pub open spec fn spec_mul14(a: int, b: int) -> int {
    sat32(floor_div(a * b + 0x2000, 0x4000))
}

/// Quotient `(a * 64) / b` of two nonnegative values, the 26.6 factor
/// taking one `b`-unit to `a` 26.6-units.
pub open spec fn spec_div26(a: int, b: int) -> int
    recommends
        a >= 0,
        b > 0,
{
    sat32(a * 64 / b)
}

/// 26.6 value rounded to the nearest whole pixel.
pub open spec fn spec_round26(x: int) -> int {
    sat32(floor_div(x + 32, 64) * 64)
}

/// Clamps a 64-bit intermediate into the `i32` range.
pub fn clamp32(v: i64) -> (r: i32)
    ensures
        r as int == sat32(v as int),
{
    if v < -0x8000_0000i64 {
        i32::MIN
    } else if v > 0x7FFF_FFFFi64 {
        i32::MAX
    } else {
        v as i32
    }
}

fn floor_div_exec(v: i64, d: u64) -> (q: i64)
    requires
        1 <= d <= 0x1_0000_0000,
        -0x7FFF_FFFF_FFFF_0000 <= v <= 0x7FFF_FFFF_FFFF_0000,
    ensures
        q == floor_div(v as int, d as int),
{
    if v >= 0 {
        ((v as u64) / d) as i64
    } else {
        let m: u64 = (-v) as u64;
        proof {
            assert((m as int + d as int - 1) / (d as int) <= m as int) by (nonlinear_arith)
                requires
                    d >= 1,
                    m >= 1,
            ;
        }
        -(((m + (d - 1)) / d) as i64)
    }
}

/// 26.6 multiply: `(a * b + 32) >> 6`, saturated.
pub fn mul26(a: i32, b: i32) -> (r: i32)
    ensures
        r as int == spec_mul26(a as int, b as int),
{
    proof {
        assert(-0x4000_0000_0000_0000 <= (a as i64) * (b as i64)
            <= 0x4000_0000_0000_0000) by (nonlinear_arith)
            requires
                -0x8000_0000 <= a as i64 <= 0x7FFF_FFFF,
                -0x8000_0000 <= b as i64 <= 0x7FFF_FFFF,
        ;
    }
    let v: i64 = (a as i64) * (b as i64) + 32;
    clamp32(floor_div_exec(v, 64))
}

/// 2.14 multiply: `(a * b + 0x2000) >> 14`, saturated.
pub fn mul14(a: i32, b: i32) -> (r: i32)
    ensures
        r as int == spec_mul14(a as int, b as int),
{
    proof {
        assert(-0x4000_0000_0000_0000 <= (a as i64) * (b as i64)
            <= 0x4000_0000_0000_0000) by (nonlinear_arith)
            requires
                -0x8000_0000 <= a as i64 <= 0x7FFF_FFFF,
                -0x8000_0000 <= b as i64 <= 0x7FFF_FFFF,
        ;
    }
    let v: i64 = (a as i64) * (b as i64) + 0x2000;
    clamp32(floor_div_exec(v, 0x4000))
}

/// 26.6 quotient of nonnegative values: `(a << 6) / b`, saturated.
pub fn div26(a: i64, b: i64) -> (r: i32)
    requires
        0 <= a <= 0x1_0000_0000,
        0 < b <= 0x1_0000_0000,
    ensures
        r as int == spec_div26(a as int, b as int),
{
    let v: i64 = a * 64;
    clamp32(floor_div_exec(v, b as u64))
}

/// Round a 26.6 value to the nearest whole pixel: `(x + 32) & !63`, saturated.
pub fn round26(x: i32) -> (r: i32)
    ensures
        r as int == spec_round26(x as int),
{
    let q: i64 = floor_div_exec((x as i64) + 32, 64);
    clamp32(q * 64)
}

/// Clamp of an unbounded integer into `[-2^62, 2^62]`, the band in which
/// variation deltas are accumulated before rounding.
pub open spec fn sat62(x: int) -> int {
    if x < -0x4000_0000_0000_0000 {
        -0x4000_0000_0000_0000
    } else if x > 0x4000_0000_0000_0000 {
        0x4000_0000_0000_0000
    } else {
        x
    }
}

/// Division truncating toward zero, the legacy rasterizer's way of
/// dropping a fractional part.
pub open spec fn trunc_div(x: int, d: int) -> int
    recommends
        d > 0,
{
    if x >= 0 {
        x / d
    } else {
        -((-x) / d)
    }
}

/// Exact widening product of two 32-bit values.
pub fn mul_wide(a: i32, b: i32) -> (r: i64)
    ensures
        r == a as int * b as int,
        -0x4000_0000_0000_0000 <= r <= 0x4000_0000_0000_0000,
{
    proof {
        assert(-0x4000_0000_0000_0000 <= (a as i64) * (b as i64)
            <= 0x4000_0000_0000_0000) by (nonlinear_arith)
            requires
                -0x8000_0000 <= a as i64 <= 0x7FFF_FFFF,
                -0x8000_0000 <= b as i64 <= 0x7FFF_FFFF,
        ;
    }
    (a as i64) * (b as i64)
}

/// Saturating accumulation step for variation deltas.
pub fn acc62(a: i64, b: i64) -> (r: i64)
    requires
        -0x4000_0000_0000_0000 <= a <= 0x4000_0000_0000_0000,
        -0x4000_0000_0000_0000 <= b <= 0x4000_0000_0000_0000,
    ensures
        r == sat62(a + b),
{
    if b >= 0 {
        if a > 0x4000_0000_0000_0000i64 - b {
            0x4000_0000_0000_0000i64
        } else {
            a + b
        }
    } else {
        if a < -0x4000_0000_0000_0000i64 - b {
            -0x4000_0000_0000_0000i64
        } else {
            a + b
        }
    }
}

/// A 2.14 accumulation rounded to the nearest integer: `(v + 0x2000) >> 14`.
pub fn round14(v: i64) -> (r: i32)
    requires
        -0x4000_0000_0000_0000 <= v <= 0x4000_0000_0000_0000,
    ensures
        r as int == sat32(floor_div(v + 0x2000, 0x4000)),
{
    clamp32(floor_div_exec(v + 0x2000, 0x4000))
}

/// A 2.14 accumulation truncated toward zero, as legacy metric variation
/// demands.
pub fn trunc14(v: i64) -> (r: i32)
    requires
        -0x4000_0000_0000_0000 <= v <= 0x4000_0000_0000_0000,
    ensures
        r as int == sat32(trunc_div(v as int, 0x4000)),
{
    if v >= 0 {
        clamp32(((v as u64) / 0x4000) as i64)
    } else {
        let m: u64 = (-v) as u64;
        clamp32(-((m / 0x4000) as i64))
    }
}

/// 2.14 quotient of nonnegative values: `(a << 14) / b`.
pub fn div14(a: i32, b: i32) -> (r: i32)
    requires
        0 <= a <= 0x1_0000,
        0 < b <= 0x1_0000,
    ensures
        r as int == sat32(a as int * 0x4000 / (b as int)),
{
    clamp32((((a as u64) * 0x4000) / (b as u64)) as i64)
}

/// A font-unit value reinterpreted as a 26.6 quantity with the same
/// integer part and zero fraction.
pub fn to26(v: i32) -> (r: i32)
    ensures
        r as int == sat32(v as int * 64),
{
    clamp32((v as i64) * 64)
}

/// Saturating sum of two 26.6 (or font-unit) values.
pub fn add32(a: i32, b: i32) -> (r: i32)
    ensures
        r as int == sat32(a as int + b as int),
{
    clamp32((a as i64) + (b as i64))
}

/// Saturating difference of two 26.6 (or font-unit) values.
pub fn sub32(a: i32, b: i32) -> (r: i32)
    ensures
        r as int == sat32(a as int - b as int),
{
    clamp32((a as i64) - (b as i64))
}

} // verus!
