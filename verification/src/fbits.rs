//! Bit-level model of IEEE 754 binary64 scalars.
//!
//! Every scalar the range-mapper stores or returns is carried as the `u64`
//! bit pattern of a double. Sign, finiteness, ordering and clamping are
//! plain integer arithmetic on that pattern, using the standard binary64
//! sign/exponent layout (the same formulas vstd states for `f64` bit
//! patterns). Only the rounded arithmetic itself — subtraction,
//! multiplication, division — is delegated to the `rustc_apfloat` softfloat
//! library behind trusted wrappers, whose results are named but otherwise
//! uninterpreted.

use rustc_apfloat::Float;
use vstd::prelude::*;

verus! {

/// Sign bit of a binary64 bit pattern.
pub const SIGN_BIT: u64 = 0x8000_0000_0000_0000;

/// Smallest magnitude (sign-cleared) pattern that is not finite: the
/// exponent field all ones, mantissa zero, i.e. positive infinity.
pub const INF_ABS_BITS: u64 = 0x7ff0_0000_0000_0000;

/// Bit pattern of 0.0.
pub const ZERO_BITS: u64 = 0;

/// Bit pattern of 1.0.
pub const ONE_BITS: u64 = 0x3ff0_0000_0000_0000;

/// Bit pattern of 1e-15: a range whose magnitude lies below this threshold
/// is treated as degenerate.
pub const DEGENERACY_EPS_BITS: u64 = 0x3cd2_03af_9ee7_5616;

/// Bit pattern of 1e6, the upper clamp bound on every computed output.
pub const CLAMP_MAX_BITS: u64 = 0x412e_8480_0000_0000;

/// Bit pattern of -1e6, the lower clamp bound on every computed output.
pub const CLAMP_MIN_BITS: u64 = 0xc12e_8480_0000_0000;

/// The magnitude bits of a double: its bit pattern with the sign cleared.
pub open spec fn abs_bits(b: u64) -> u64 {
    if b >= SIGN_BIT {
        (b - SIGN_BIT) as u64
    } else {
        b
    }
}

/// The sign bit is set (negative zero counts as negative).
pub open spec fn is_neg_bits(b: u64) -> bool {
    b >= SIGN_BIT
}

/// The pattern encodes a finite double (zero, subnormal or normal).
pub open spec fn finite_bits(b: u64) -> bool {
    abs_bits(b) < INF_ABS_BITS
}

/// The pattern encodes a NaN.
pub open spec fn is_nan_bits(b: u64) -> bool {
    abs_bits(b) > INF_ABS_BITS
}

/// The pattern encodes +0.0 or -0.0.
pub open spec fn is_zero_bits(b: u64) -> bool {
    abs_bits(b) == 0
}

/// IEEE 754 `<` on two bit patterns: false when either operand is NaN, the
/// two zeros compare equal, and otherwise sign-magnitude order. For doubles
/// of one sign, magnitude order coincides with unsigned order of the
/// magnitude bits.
pub open spec fn lt_bits(a: u64, b: u64) -> bool {
    &&& !is_nan_bits(a)
    &&& !is_nan_bits(b)
    &&& !(is_zero_bits(a) && is_zero_bits(b))
    &&& if is_neg_bits(a) {
        is_neg_bits(b) ==> abs_bits(a) > abs_bits(b)
    } else {
        !is_neg_bits(b) && abs_bits(a) < abs_bits(b)
    }
}

/// A range is degenerate when its span is not finite or its magnitude lies
/// below the 1e-15 threshold.
pub open spec fn degenerate_bits(r: u64) -> bool {
    !finite_bits(r) || abs_bits(r) < DEGENERACY_EPS_BITS
}

/// The clamp of a value to [-1e6, 1e6]: the bound where the value lies
/// strictly beyond it, the value itself otherwise (in particular, a NaN
/// passes through unchanged).
pub open spec fn clamp_bits(x: u64) -> u64 {
    if lt_bits(x, CLAMP_MIN_BITS) {
        CLAMP_MIN_BITS
    } else if lt_bits(CLAMP_MAX_BITS, x) {
        CLAMP_MAX_BITS
    } else {
        x
    }
}

/// The value is not NaN and lies within the clamp bounds in IEEE order.
pub open spec fn in_clamp_range(x: u64) -> bool {
    &&& !is_nan_bits(x)
    &&& !lt_bits(x, CLAMP_MIN_BITS)
    &&& !lt_bits(CLAMP_MAX_BITS, x)
}

/// True when `b` encodes a finite double.
pub fn is_finite_value(b: u64) -> (r: bool)
    ensures
        r == finite_bits(b),
{
    let m: u64 = if b >= SIGN_BIT {
        b - SIGN_BIT
    } else {
        b
    };
    m < INF_ABS_BITS
}

/// IEEE 754 `<` on two bit patterns, as `lt_bits` states it.
pub fn lt_value(a: u64, b: u64) -> (r: bool)
    ensures
        r == lt_bits(a, b),
{
    let ma: u64 = if a >= SIGN_BIT {
        a - SIGN_BIT
    } else {
        a
    };
    let mb: u64 = if b >= SIGN_BIT {
        b - SIGN_BIT
    } else {
        b
    };
    if ma > INF_ABS_BITS || mb > INF_ABS_BITS {
        false
    } else if ma == 0 && mb == 0 {
        false
    } else if a >= SIGN_BIT {
        if b >= SIGN_BIT {
            ma > mb
        } else {
            true
        }
    } else {
        b < SIGN_BIT && ma < mb
    }
}

/// Clamps a bit pattern to [-1e6, 1e6], as `clamp_bits` states it.
pub fn clamp_value(x: u64) -> (r: u64)
    ensures
        r == clamp_bits(x),
{
    if lt_value(x, CLAMP_MIN_BITS) {
        CLAMP_MIN_BITS
    } else if lt_value(CLAMP_MAX_BITS, x) {
        CLAMP_MAX_BITS
    } else {
        x
    }
}

/// True when `r` encodes a degenerate range span, as `degenerate_bits`
/// states it.
pub fn is_degenerate_value(r: u64) -> (b: bool)
    ensures
        b == degenerate_bits(r),
{
    let m: u64 = if r >= SIGN_BIT {
        r - SIGN_BIT
    } else {
        r
    };
    m >= INF_ABS_BITS || m < DEGENERACY_EPS_BITS
}

/// A value within the clamp bounds is finite: both infinities lie strictly
/// beyond the bounds, and NaN is excluded outright.
pub proof fn lemma_clamp_range_finite(x: u64)
    requires
        in_clamp_range(x),
    ensures
        finite_bits(x),
{
}

/// A clamped value that was not NaN lies within the clamp bounds.
pub proof fn lemma_clamp_in_range(x: u64)
    requires
        !is_nan_bits(x),
    ensures
        in_clamp_range(clamp_bits(x)),
{
}

/// The fallback coefficients 1.0 and 0.0 lie within the clamp bounds.
pub proof fn lemma_fallback_in_range()
    ensures
        in_clamp_range(ONE_BITS),
        in_clamp_range(ZERO_BITS),
{
}

/// Bit pattern of an IEEE 754 binary64 subtraction of the doubles the two
/// operand patterns encode, rounded to nearest, ties to even.
pub uninterp spec fn sub_bits(a: u64, b: u64) -> u64;

/// Bit pattern of an IEEE 754 binary64 multiplication of the doubles the
/// two operand patterns encode, rounded to nearest, ties to even.
pub uninterp spec fn mul_bits(a: u64, b: u64) -> u64;

/// Bit pattern of an IEEE 754 binary64 division of the doubles the two
/// operand patterns encode, rounded to nearest, ties to even.
pub uninterp spec fn div_bits(a: u64, b: u64) -> u64;

/// Relies on rustc_apfloat's binary64 subtraction (`Double::sub`, round to
/// nearest, ties to even): a deterministic function of the operand bit
/// patterns, and never NaN when the left operand is finite and the right
/// one is not NaN (IEEE 754 subtraction is invalid only on NaN operands or
/// on two like-signed infinities).
#[verifier::external_body]
pub(crate) fn f64_sub(a: u64, b: u64) -> (r: u64)
    ensures
        r == sub_bits(a, b),
        finite_bits(a) && !is_nan_bits(b) ==> !is_nan_bits(r),
{
    let x = rustc_apfloat::ieee::Double::from_bits(a as u128);
    let y = rustc_apfloat::ieee::Double::from_bits(b as u128);
    (x - y).value.to_bits() as u64
}

/// Relies on rustc_apfloat's binary64 multiplication (`Double::mul`, round
/// to nearest, ties to even): a deterministic function of the operand bit
/// patterns, and never NaN on two finite operands (IEEE 754 multiplication
/// is invalid only on a NaN operand or on zero times infinity).
#[verifier::external_body]
pub(crate) fn f64_mul(a: u64, b: u64) -> (r: u64)
    ensures
        r == mul_bits(a, b),
        finite_bits(a) && finite_bits(b) ==> !is_nan_bits(r),
{
    let x = rustc_apfloat::ieee::Double::from_bits(a as u128);
    let y = rustc_apfloat::ieee::Double::from_bits(b as u128);
    (x * y).value.to_bits() as u64
}

/// Relies on rustc_apfloat's binary64 division (`Double::div`, round to
/// nearest, ties to even): a deterministic function of the operand bit
/// patterns, and never NaN on finite operands with a non-zero divisor
/// (IEEE 754 division is invalid only on a NaN operand, zero over zero, or
/// infinity over infinity).
#[verifier::external_body]
pub(crate) fn f64_div(a: u64, b: u64) -> (r: u64)
    ensures
        r == div_bits(a, b),
        finite_bits(a) && finite_bits(b) && !is_zero_bits(b) ==> !is_nan_bits(r),
{
    let x = rustc_apfloat::ieee::Double::from_bits(a as u128);
    let y = rustc_apfloat::ieee::Double::from_bits(b as u128);
    (x / y).value.to_bits() as u64
}

} // verus!
