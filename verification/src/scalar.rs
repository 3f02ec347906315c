//! Double-precision scalars, held as their IEEE-754 bit patterns.
//!
//! Every scalar in this crate is carried as the 64-bit pattern of an IEEE-754
//! double (sign bit, 11 exponent bits, 52 fraction bits).  Sign-bit operations
//! (negation, absolute value) and the classification tests (not-a-number,
//! zero) are exact bit manipulations and are verified here.  Rounded
//! arithmetic cannot be written down in the logic, so each rounded operation
//! is a trusted call whose result is named by an uninterpreted function: the
//! operations are deterministic functions of the argument bits alone.

use vstd::prelude::*;

verus! {

/// The sign bit of a double.
pub const SIGN_MASK: u64 = 0x8000_0000_0000_0000;

/// All bits of a double except the sign bit.
pub const ABS_MASK: u64 = 0x7fff_ffff_ffff_ffff;

/// The 11 exponent bits of a double.
pub const EXP_MASK: u64 = 0x7ff0_0000_0000_0000;

/// The 52 fraction bits of a double.
pub const FRAC_MASK: u64 = 0x000f_ffff_ffff_ffff;

/// The bit pattern of 0.0.
pub const ZERO_BITS: u64 = 0;

/// The bit pattern of 0.5.
pub const HALF_BITS: u64 = 0x3fe0_0000_0000_0000;

/// The bit pattern of 1.0.
pub const ONE_BITS: u64 = 0x3ff0_0000_0000_0000;

/// The bit pattern of 2.0.
pub const TWO_BITS: u64 = 0x4000_0000_0000_0000;

/// The bit pattern of 4.0.
pub const FOUR_BITS: u64 = 0x4010_0000_0000_0000;

/// The bit pattern of 0.999, the margin factor of the window transform.
pub const MARGIN_BITS: u64 = 0x3fef_f7ce_d916_872b;

/// A double is not-a-number exactly when its exponent bits are all ones and
/// its fraction bits are not all zero.
pub open spec fn is_nan_b(b: u64) -> bool {
    b & EXP_MASK == EXP_MASK && b & FRAC_MASK != 0
}

/// A double is zero (of either sign) exactly when all bits besides the sign
/// bit are zero.
pub open spec fn is_zero_b(b: u64) -> bool {
    b & ABS_MASK == 0
}

/// Negation of a double flips exactly the sign bit.
pub open spec fn neg_b(b: u64) -> u64 {
    b ^ SIGN_MASK
}

/// Absolute value of a double clears exactly the sign bit.
pub open spec fn abs_b(b: u64) -> u64 {
    b & ABS_MASK
}

pub fn f64_is_nan(b: u64) -> (r: bool)
    ensures
        r == is_nan_b(b),
{
    b & EXP_MASK == EXP_MASK && b & FRAC_MASK != 0
}

pub fn f64_is_zero(b: u64) -> (r: bool)
    ensures
        r == is_zero_b(b),
{
    b & ABS_MASK == 0
}

pub fn f64_neg(b: u64) -> (r: u64)
    ensures
        r == neg_b(b),
{
    b ^ SIGN_MASK
}

pub fn f64_abs(b: u64) -> (r: u64)
    ensures
        r == abs_b(b),
{
    b & ABS_MASK
}

/// The rounded sum of two doubles, by bit pattern.
pub uninterp spec fn fadd_of(a: u64, b: u64) -> u64;

/// The rounded difference of two doubles, by bit pattern.
pub uninterp spec fn fsub_of(a: u64, b: u64) -> u64;

/// The rounded product of two doubles, by bit pattern.
pub uninterp spec fn fmul_of(a: u64, b: u64) -> u64;

/// The rounded quotient of two doubles, by bit pattern.
pub uninterp spec fn fdiv_of(a: u64, b: u64) -> u64;

/// The smaller of two doubles as `min` of std picks it, by bit pattern.
pub uninterp spec fn fmin_of(a: u64, b: u64) -> u64;

/// The strict `<` comparison of two doubles, by bit pattern.
pub uninterp spec fn flt_of(a: u64, b: u64) -> bool;

/// The `>=` comparison of two doubles, by bit pattern.
pub uninterp spec fn fge_of(a: u64, b: u64) -> bool;

/// The saturating truncation of a double to a 32-bit unsigned integer.
pub uninterp spec fn trunc_u32_of(b: u64) -> u32;

/// The double nearest to a 32-bit unsigned integer (the conversion is exact).
pub uninterp spec fn from_u32_of(w: u32) -> u64;

/// Relies on std's `+` for doubles, applied to the bit patterns
/// reinterpreted through `bytemuck::cast`: the rounded sum is a function of
/// the argument bits alone.
#[verifier::external_body]
pub fn fadd(a: u64, b: u64) -> (r: u64)
    ensures
        r == fadd_of(a, b),
{
    let z = num_complex::Complex64::new(bytemuck::cast(a), bytemuck::cast(b));
    (z.re + z.im).to_bits()
}

/// Relies on std's `-` for doubles, on the reinterpreted bit patterns: the
/// rounded difference is a function of the argument bits alone.
#[verifier::external_body]
pub fn fsub(a: u64, b: u64) -> (r: u64)
    ensures
        r == fsub_of(a, b),
{
    let z = num_complex::Complex64::new(bytemuck::cast(a), bytemuck::cast(b));
    (z.re - z.im).to_bits()
}

/// Relies on std's `*` for doubles, on the reinterpreted bit patterns: the
/// rounded product is a function of the argument bits alone.
#[verifier::external_body]
pub fn fmul(a: u64, b: u64) -> (r: u64)
    ensures
        r == fmul_of(a, b),
{
    let z = num_complex::Complex64::new(bytemuck::cast(a), bytemuck::cast(b));
    (z.re * z.im).to_bits()
}

/// Relies on std's `/` for doubles, on the reinterpreted bit patterns: the
/// rounded quotient is a function of the argument bits alone.
#[verifier::external_body]
pub fn fdiv(a: u64, b: u64) -> (r: u64)
    ensures
        r == fdiv_of(a, b),
{
    let z = num_complex::Complex64::new(bytemuck::cast(a), bytemuck::cast(b));
    (z.re / z.im).to_bits()
}

/// Relies on std's `min` for doubles (the lesser argument, ignoring
/// not-a-number): the result is a function of the argument bits alone.
#[verifier::external_body]
pub fn fmin(a: u64, b: u64) -> (r: u64)
    ensures
        r == fmin_of(a, b),
{
    let z = num_complex::Complex64::new(bytemuck::cast(a), bytemuck::cast(b));
    z.re.min(z.im).to_bits()
}

/// Relies on std's `<` for doubles, on the reinterpreted bit patterns: the
/// comparison is a function of the argument bits alone.
#[verifier::external_body]
pub fn flt(a: u64, b: u64) -> (r: bool)
    ensures
        r == flt_of(a, b),
{
    let z = num_complex::Complex64::new(bytemuck::cast(a), bytemuck::cast(b));
    z.re < z.im
}

/// Relies on std's `>=` for doubles, on the reinterpreted bit patterns: the
/// comparison is a function of the argument bits alone.
#[verifier::external_body]
pub fn fge(a: u64, b: u64) -> (r: bool)
    ensures
        r == fge_of(a, b),
{
    let z = num_complex::Complex64::new(bytemuck::cast(a), bytemuck::cast(b));
    z.re >= z.im
}

/// Relies on std's `as` cast from a double to a 32-bit unsigned integer
/// (truncating, saturating, zero for not-a-number): the result is a function
/// of the argument bits alone.
#[verifier::external_body]
pub fn f64_trunc_u32(b: u64) -> (r: u32)
    ensures
        r == trunc_u32_of(b),
{
    let z = num_complex::Complex64::new(bytemuck::cast(b), bytemuck::cast(0u64));
    z.re as u32
}

/// Relies on std's `From<u32>` conversion to a double, which is exact.
#[verifier::external_body]
pub fn f64_from_u32(w: u32) -> (r: u64)
    ensures
        r == from_u32_of(w),
{
    let z = num_complex::Complex64::new(w.into(), bytemuck::cast(0u64));
    z.re.to_bits()
}

} // verus!
