//! Circles in inversive coordinates.
//!
//! A circle is a 2×2 Hermitian complex matrix `H`; its inverse radius is the
//! absolute value of the real part of the upper left entry, and its center is
//! the negated upper right entry divided by that real part.  A Möbius
//! transform `M` acts on a circle by the adjoint-inverse sandwich
//! `M†⁻¹ · H · M⁻¹`.

use vstd::prelude::*;
use crate::Cpx;
use crate::algebra::{Mat2, inv_s, inv_dagger_s, mat_mul_s, inv, inv_dagger, mat_mul};
use crate::scalar::abs_b;
use crate::scalar::f64_abs;
use crate::cpx::{cneg_s, divr_of, cneg, divr};

verus! {

/// A circle, as the Hermitian matrix of its inversive coordinates.
#[derive(Clone, Copy, PartialEq, Eq, Structural, Debug)]
pub struct Circle(pub Mat2);

/// The inverse radius: the absolute value of the real part of the upper left
/// entry, an exact sign-bit operation.
pub open spec fn radius_inv_s(c: Circle) -> u64 {
    abs_b(c.0.m00.re)
}

/// The center: the negated upper right entry divided by the real part of the
/// upper left entry.
pub open spec fn center_s(c: Circle) -> Cpx {
    divr_of(cneg_s(c.0.m01), c.0.m00.re)
}

/// The circle obtained by letting the transform `m` act on `c`.
pub open spec fn mul_circle_s(m: Mat2, c: Circle) -> Circle {
    Circle(mat_mul_s(mat_mul_s(inv_dagger_s(m), c.0), inv_s(m)))
}

impl Circle {
    /// Returns the inverse radius of the circle, as a bit pattern.
    pub fn radius_inv(&self) -> (r: u64)
        ensures
            r == radius_inv_s(*self),
    {
        f64_abs(self.0.m00.re)
    }

    /// Returns the center of the circle.
    pub fn center(&self) -> (r: Cpx)
        ensures
            r == center_s(*self),
    {
        divr(cneg(self.0.m01), self.0.m00.re)
    }
}

/// Returns the circle obtained by letting the transform `m` act on `c` by
/// the adjoint-inverse sandwich.
pub fn mul_circle(m: &Mat2, c: &Circle) -> (r: Circle)
    ensures
        r == mul_circle_s(*m, *c),
{
    let left = inv_dagger(m);
    let right = inv(m);
    Circle(mat_mul(&mat_mul(&left, &c.0), &right))
}

} // verus!
