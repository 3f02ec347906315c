//! Complex arithmetic on pairs of double-precision bit patterns.
//!
//! Sign-bit operations (negation, conjugation) and the zero test are exact
//! and verified.  The rounded operations call `num_complex` on the
//! reinterpreted bit patterns; each result is named by an uninterpreted
//! function of the argument bits alone.

use vstd::prelude::*;
use crate::Cpx;
use crate::scalar::{is_zero_b, neg_b};
use crate::scalar::{f64_is_zero, f64_neg};

verus! {

/// The negation of a complex number flips exactly the sign bits of both
/// parts (as `num_complex` negates each part).
pub open spec fn cneg_s(z: Cpx) -> Cpx {
    Cpx { re: neg_b(z.re), im: neg_b(z.im) }
}

/// The conjugate of a complex number flips exactly the sign bit of the
/// imaginary part.
pub open spec fn conj_s(z: Cpx) -> Cpx {
    Cpx { re: z.re, im: neg_b(z.im) }
}

/// A complex number is zero when both parts are zeros of either sign.
pub open spec fn c_is_zero_s(z: Cpx) -> bool {
    is_zero_b(z.re) && is_zero_b(z.im)
}

pub fn cneg(z: Cpx) -> (r: Cpx)
    ensures
        r == cneg_s(z),
{
    Cpx { re: f64_neg(z.re), im: f64_neg(z.im) }
}

pub fn conj(z: Cpx) -> (r: Cpx)
    ensures
        r == conj_s(z),
{
    Cpx { re: z.re, im: f64_neg(z.im) }
}

pub fn c_is_zero(z: Cpx) -> (r: bool)
    ensures
        r == c_is_zero_s(z),
{
    f64_is_zero(z.re) && f64_is_zero(z.im)
}

/// The rounded complex sum, by bit patterns.
pub uninterp spec fn cadd_of(x: Cpx, y: Cpx) -> Cpx;

/// The rounded complex difference, by bit patterns.
pub uninterp spec fn csub_of(x: Cpx, y: Cpx) -> Cpx;

/// The rounded complex product, by bit patterns.
pub uninterp spec fn cmul_of(x: Cpx, y: Cpx) -> Cpx;

/// The rounded complex quotient, by bit patterns.
pub uninterp spec fn cdiv_of(x: Cpx, y: Cpx) -> Cpx;

/// The principal complex square root, by bit patterns.
pub uninterp spec fn csqrt_of(z: Cpx) -> Cpx;

/// The rounded squared norm of a complex number, by bit patterns.
pub uninterp spec fn norm_sqr_of(z: Cpx) -> u64;

/// The rounded product of a real scalar and a complex number.
pub uninterp spec fn rmul_of(s: u64, z: Cpx) -> Cpx;

/// The rounded sum of a complex number and a real scalar.
pub uninterp spec fn addr_of(z: Cpx, s: u64) -> Cpx;

/// The rounded difference of a complex number and a real scalar.
pub uninterp spec fn subr_of(z: Cpx, s: u64) -> Cpx;

/// The rounded quotient of a complex number by a real scalar.
pub uninterp spec fn divr_of(z: Cpx, s: u64) -> Cpx;

/// The rounded quotient of a real scalar by a complex number.
pub uninterp spec fn rdiv_of(s: u64, z: Cpx) -> Cpx;

/// Relies on `num_complex`: addition of two complex numbers; the result is a
/// function of the argument bits alone.
#[verifier::external_body]
pub fn cadd(x: Cpx, y: Cpx) -> (r: Cpx)
    ensures
        r == cadd_of(x, y),
{
    let a = num_complex::Complex64::new(bytemuck::cast(x.re), bytemuck::cast(x.im));
    let b = num_complex::Complex64::new(bytemuck::cast(y.re), bytemuck::cast(y.im));
    let c = a + b;
    Cpx { re: c.re.to_bits(), im: c.im.to_bits() }
}

/// Relies on `num_complex`: subtraction of two complex numbers; the result is
/// a function of the argument bits alone.
#[verifier::external_body]
pub fn csub(x: Cpx, y: Cpx) -> (r: Cpx)
    ensures
        r == csub_of(x, y),
{
    let a = num_complex::Complex64::new(bytemuck::cast(x.re), bytemuck::cast(x.im));
    let b = num_complex::Complex64::new(bytemuck::cast(y.re), bytemuck::cast(y.im));
    let c = a - b;
    Cpx { re: c.re.to_bits(), im: c.im.to_bits() }
}

/// Relies on `num_complex`: multiplication of two complex numbers; the result
/// is a function of the argument bits alone.
#[verifier::external_body]
pub fn cmul(x: Cpx, y: Cpx) -> (r: Cpx)
    ensures
        r == cmul_of(x, y),
{
    let a = num_complex::Complex64::new(bytemuck::cast(x.re), bytemuck::cast(x.im));
    let b = num_complex::Complex64::new(bytemuck::cast(y.re), bytemuck::cast(y.im));
    let c = a * b;
    Cpx { re: c.re.to_bits(), im: c.im.to_bits() }
}

/// Relies on `num_complex`: division of two complex numbers; the result is a
/// function of the argument bits alone.
#[verifier::external_body]
pub fn cdiv(x: Cpx, y: Cpx) -> (r: Cpx)
    ensures
        r == cdiv_of(x, y),
{
    let a = num_complex::Complex64::new(bytemuck::cast(x.re), bytemuck::cast(x.im));
    let b = num_complex::Complex64::new(bytemuck::cast(y.re), bytemuck::cast(y.im));
    let c = a / b;
    Cpx { re: c.re.to_bits(), im: c.im.to_bits() }
}

/// Relies on `num_complex`: the principal square root (the branch with
/// non-negative real part); the result is a function of the argument bits
/// alone.
#[verifier::external_body]
pub fn csqrt(z: Cpx) -> (r: Cpx)
    ensures
        r == csqrt_of(z),
{
    let a = num_complex::Complex64::new(bytemuck::cast(z.re), bytemuck::cast(z.im));
    let c = a.sqrt();
    Cpx { re: c.re.to_bits(), im: c.im.to_bits() }
}

/// Relies on `num_complex`: the squared norm `re*re + im*im`; the result is a
/// function of the argument bits alone.
#[verifier::external_body]
pub fn norm_sqr(z: Cpx) -> (r: u64)
    ensures
        r == norm_sqr_of(z),
{
    let a = num_complex::Complex64::new(bytemuck::cast(z.re), bytemuck::cast(z.im));
    a.norm_sqr().to_bits()
}

/// Relies on `num_complex`: multiplication of a complex number by a real
/// scalar on the left; the result is a function of the argument bits alone.
#[verifier::external_body]
pub fn rmul(s: u64, z: Cpx) -> (r: Cpx)
    ensures
        r == rmul_of(s, z),
{
    let a = num_complex::Complex64::new(bytemuck::cast(s), bytemuck::cast(0u64));
    let b = num_complex::Complex64::new(bytemuck::cast(z.re), bytemuck::cast(z.im));
    let c = a.re * b;
    Cpx { re: c.re.to_bits(), im: c.im.to_bits() }
}

/// Relies on `num_complex`: addition of a real scalar to a complex number;
/// the result is a function of the argument bits alone.
#[verifier::external_body]
pub fn addr(z: Cpx, s: u64) -> (r: Cpx)
    ensures
        r == addr_of(z, s),
{
    let a = num_complex::Complex64::new(bytemuck::cast(z.re), bytemuck::cast(z.im));
    let b = num_complex::Complex64::new(bytemuck::cast(s), bytemuck::cast(0u64));
    let c = a + b.re;
    Cpx { re: c.re.to_bits(), im: c.im.to_bits() }
}

/// Relies on `num_complex`: subtraction of a real scalar from a complex
/// number; the result is a function of the argument bits alone.
#[verifier::external_body]
pub fn subr(z: Cpx, s: u64) -> (r: Cpx)
    ensures
        r == subr_of(z, s),
{
    let a = num_complex::Complex64::new(bytemuck::cast(z.re), bytemuck::cast(z.im));
    let b = num_complex::Complex64::new(bytemuck::cast(s), bytemuck::cast(0u64));
    let c = a - b.re;
    Cpx { re: c.re.to_bits(), im: c.im.to_bits() }
}

/// Relies on `num_complex`: division of a complex number by a real scalar;
/// the result is a function of the argument bits alone.
#[verifier::external_body]
pub fn divr(z: Cpx, s: u64) -> (r: Cpx)
    ensures
        r == divr_of(z, s),
{
    let a = num_complex::Complex64::new(bytemuck::cast(z.re), bytemuck::cast(z.im));
    let b = num_complex::Complex64::new(bytemuck::cast(s), bytemuck::cast(0u64));
    let c = a / b.re;
    Cpx { re: c.re.to_bits(), im: c.im.to_bits() }
}

/// Relies on `num_complex`: division of a real scalar by a complex number;
/// the result is a function of the argument bits alone.
#[verifier::external_body]
pub fn rdiv(s: u64, z: Cpx) -> (r: Cpx)
    ensures
        r == rdiv_of(s, z),
{
    let a = num_complex::Complex64::new(bytemuck::cast(s), bytemuck::cast(0u64));
    let b = num_complex::Complex64::new(bytemuck::cast(z.re), bytemuck::cast(z.im));
    let c = a.re / b;
    Cpx { re: c.re.to_bits(), im: c.im.to_bits() }
}

} // verus!
