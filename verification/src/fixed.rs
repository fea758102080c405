//! Fixed-point scalar arithmetic for the brush engine.
//!
//! Every scalar the engine works with (coordinates, heights, radii, color
//! channels, noise samples, brush parameters) is a signed 64-bit value
//! carrying six decimal places: `MICRO` encodes one world unit. Sums and
//! scaled products saturate at the edges of the representable range, so
//! every operation here is total.

use vstd::math::abs;
use vstd::prelude::*;

verus! {

/// One world unit: fixed-point values carry six decimal places.
pub const MICRO: i64 = 1_000_000;

/// An unbounded integer clamped into the range of `i64`.
pub open spec fn sat64(x: int) -> int {
    if x > i64::MAX as int {
        i64::MAX as int
    } else if x < i64::MIN as int {
        i64::MIN as int
    } else {
        x
    }
}

/// Quotient rounded toward zero, the rounding the executable operations use.
pub open spec fn div_toward_zero(num: int, den: int) -> int
    recommends
        den > 0,
{
    if num >= 0 {
        num / den
    } else {
        -((-num) / den)
    }
}

/// Saturating sum of two fixed-point values.
pub open spec fn add_fixed(a: int, b: int) -> int {
    sat64(a + b)
}

/// Product of two fixed-point values, scaled back into fixed point and
/// saturated.
pub open spec fn scale_fixed(a: int, b: int) -> int {
    sat64(div_toward_zero(a * b, MICRO as int))
}

/// A value clamped into [0, MICRO], the encoding of the unit interval.
pub open spec fn clamp_unit(x: int) -> int {
    if x < 0 {
        0
    } else if x > MICRO as int {
        MICRO as int
    } else {
        x
    }
}

/// Linear interpolation from `lo_val` (taken at `y == lo`) to `hi_val`
/// (taken at `y == hi`), saturated. A degenerate band (`hi <= lo`) pins the
/// result to `lo_val`.
pub open spec fn lerp_fixed(lo_val: int, hi_val: int, y: int, lo: int, hi: int) -> int {
    if hi <= lo {
        lo_val
    } else {
        sat64(lo_val + div_toward_zero((hi_val - lo_val) * (y - lo), hi - lo))
    }
}

/// The magnitude of a product is the product of the magnitudes.
proof fn lemma_abs_mul(a: int, b: int)
    ensures
        abs(a * b) == abs(a) * abs(b),
{
    if a >= 0 && b >= 0 {
        assert(a * b >= 0) by (nonlinear_arith)
            requires
                a >= 0 && b >= 0,
        ;
    } else if a >= 0 && b < 0 {
        assert(a * b <= 0 && a * b == -(a * (-b)) && a * (-b) >= 0) by (nonlinear_arith)
            requires
                a >= 0 && b < 0,
        ;
    } else if a < 0 && b >= 0 {
        assert(a * b <= 0 && a * b == -((-a) * b) && (-a) * b >= 0) by (nonlinear_arith)
            requires
                a < 0 && b >= 0,
        ;
    } else {
        assert(a * b >= 0 && a * b == (-a) * (-b)) by (nonlinear_arith)
            requires
                a < 0 && b < 0,
        ;
    }
}

/// How the sign of a product follows from the signs of its factors.
proof fn lemma_sign_mul(a: int, b: int)
    ensures
        (a >= 0 && b >= 0) ==> a * b >= 0,
        (a < 0 && b < 0) ==> a * b > 0,
        (a >= 0 && b < 0) ==> a * b <= 0,
        (a < 0 && b >= 0) ==> a * b <= 0,
{
    assert((a >= 0 && b >= 0) ==> a * b >= 0) by (nonlinear_arith);
    assert((a < 0 && b < 0) ==> a * b > 0) by (nonlinear_arith);
    assert((a >= 0 && b < 0) ==> a * b <= 0) by (nonlinear_arith);
    assert((a < 0 && b >= 0) ==> a * b <= 0) by (nonlinear_arith);
}

/// Signed division toward zero, recovered from the quotient of magnitudes.
proof fn lemma_div_parts(num: int, den: int, q: int)
    requires
        den > 0,
        q == abs(num) as int / den,
    ensures
        div_toward_zero(num, den) == if num >= 0 {
            q
        } else {
            -q
        },
{
}

/// The i128 sum of two i64 values, clamped back into i64.
fn clamp_i128(s: i128) -> (r: i64)
    ensures
        r as int == sat64(s as int),
{
    if s > i64::MAX as i128 {
        i64::MAX
    } else if s < i64::MIN as i128 {
        i64::MIN
    } else {
        s as i64
    }
}

/// Saturating fixed-point addition.
pub fn sat_add(a: i64, b: i64) -> (r: i64)
    ensures
        r as int == add_fixed(a as int, b as int),
{
    clamp_i128(a as i128 + b as i128)
}

/// The magnitude of a (non-minimal) i128 value, as u128.
fn magnitude(x: i128) -> (r: u128)
    requires
        x as int > i128::MIN as int,
    ensures
        r as int == abs(x as int),
{
    if x >= 0 {
        x as u128
    } else {
        (-x) as u128
    }
}

/// A magnitude with a sign attached, clamped into i64.
fn sat_signed(neg: bool, q: u128) -> (r: i64)
    ensures
        r as int == sat64(
            if neg {
                -(q as int)
            } else {
                q as int
            },
        ),
{
    if neg {
        if q >= 0x8000_0000_0000_0000u128 {
            i64::MIN
        } else {
            0i64 - (q as i64)
        }
    } else {
        if q >= 0x7FFF_FFFF_FFFF_FFFFu128 {
            i64::MAX
        } else {
            q as i64
        }
    }
}

/// Saturating fixed-point multiplication: `a * b` with the scale divided out.
pub fn fixed_scale(a: i64, b: i64) -> (r: i64)
    ensures
        r as int == scale_fixed(a as int, b as int),
{
    let neg: bool = (a < 0) != (b < 0);
    let ua: u128 = magnitude(a as i128);
    let ub: u128 = magnitude(b as i128);
    proof {
        lemma_abs_mul(a as int, b as int);
        assert(ua * ub == abs(a as int * b as int)) by (nonlinear_arith)
            requires
                ua == abs(a as int) && ub == abs(b as int) && abs(a as int * b as int) == abs(
                    a as int,
                ) * abs(b as int),
        ;
        assert(ua * ub <= 0x8000_0000_0000_0000u128 * 0x8000_0000_0000_0000u128)
            by (nonlinear_arith)
            requires
                ua <= 0x8000_0000_0000_0000u128 && ub <= 0x8000_0000_0000_0000u128,
        ;
    }
    let q: u128 = (ua * ub) / 1_000_000u128;
    proof {
        lemma_div_parts(a as int * b as int, MICRO as int, q as int);
        lemma_sign_mul(a as int, b as int);
        if a as int * b as int >= 0 {
            if neg {
                assert(a as int * b as int == 0);
                assert(q == 0);
            }
        } else {
            assert(neg);
        }
    }
    sat_signed(neg, q)
}

/// Clamp a fixed-point value into the unit interval [0, MICRO].
pub fn clamp_to_unit(x: i64) -> (r: i64)
    ensures
        r as int == clamp_unit(x as int),
{
    if x < 0 {
        0
    } else if x > MICRO {
        MICRO
    } else {
        x
    }
}

/// Saturating linear interpolation from `lo_val` to `hi_val` as `y` moves
/// from `lo` to `hi`.
pub fn lerp(lo_val: i64, hi_val: i64, y: i64, lo: i64, hi: i64) -> (r: i64)
    ensures
        r as int == lerp_fixed(lo_val as int, hi_val as int, y as int, lo as int, hi as int),
{
    if hi <= lo {
        return lo_val;
    }
    let dv: i128 = hi_val as i128 - lo_val as i128;
    let sy: i128 = y as i128 - lo as i128;
    let den: i128 = hi as i128 - lo as i128;
    let neg: bool = (dv < 0) != (sy < 0);
    let uv: u128 = magnitude(dv);
    let uy: u128 = magnitude(sy);
    let ud: u128 = den as u128;
    proof {
        lemma_abs_mul(dv as int, sy as int);
        assert(uv * uy == abs(dv as int * sy as int)) by (nonlinear_arith)
            requires
                uv == abs(dv as int) && uy == abs(sy as int) && abs(dv as int * sy as int) == abs(
                    dv as int,
                ) * abs(sy as int),
        ;
        assert(uv * uy <= 0xFFFF_FFFF_FFFF_FFFFu128 * 0xFFFF_FFFF_FFFF_FFFFu128)
            by (nonlinear_arith)
            requires
                uv <= 0xFFFF_FFFF_FFFF_FFFFu128 && uy <= 0xFFFF_FFFF_FFFF_FFFFu128,
        ;
    }
    let q: u128 = (uv * uy) / ud;
    proof {
        lemma_div_parts(dv as int * sy as int, den as int, q as int);
        lemma_sign_mul(dv as int, sy as int);
        if dv as int * sy as int >= 0 {
            if neg {
                assert(dv as int * sy as int == 0);
                assert(q == 0);
            }
        } else {
            assert(neg);
        }
    }
    if neg {
        if q >= 0x1_0000_0000_0000_0000u128 {
            i64::MIN
        } else {
            clamp_i128(lo_val as i128 - q as i128)
        }
    } else {
        if q >= 0x1_0000_0000_0000_0000u128 {
            i64::MAX
        } else {
            clamp_i128(lo_val as i128 + q as i128)
        }
    }
}

} // verus!
