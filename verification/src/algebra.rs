//! 2×2 complex matrices and the tangency-circle construction.
//!
//! A matrix is four complex entries in row-major order.  The adjoint-based
//! inverse and the conjugate transpose are exact sign-bit rearrangements and
//! are verified against concrete specifications; the rounded operations
//! (products, traces, determinants) are specified symbolically over the named
//! complex operations.

use vstd::prelude::*;
use crate::{Cpx, Error};
use crate::circle::Circle;
use crate::scalar::{HALF_BITS, ONE_BITS, ZERO_BITS, fge_of};
use crate::scalar::fge;
use crate::cpx::{cneg_s, conj_s, c_is_zero_s, cadd_of, csub_of, cmul_of, cdiv_of, csqrt_of, norm_sqr_of, rmul_of};
use crate::cpx::{cneg, conj, c_is_zero, cadd, csub, cmul, cdiv, csqrt, norm_sqr, rmul};

verus! {

/// A 2×2 complex matrix, entries in row-major order.
#[derive(Clone, Copy, PartialEq, Eq, Structural, Debug)]
pub struct Mat2 {
    pub m00: Cpx,
    pub m01: Cpx,
    pub m10: Cpx,
    pub m11: Cpx,
}

/// A row vector with two complex entries.
#[derive(Clone, Copy, PartialEq, Eq, Structural, Debug)]
pub struct RowVec2 {
    pub c0: Cpx,
    pub c1: Cpx,
}

/// The adjoint `[[d, -b], [-c, a]]` of `[[a, b], [c, d]]`; it equals the
/// inverse whenever the determinant is one.
pub open spec fn inv_s(m: Mat2) -> Mat2 {
    Mat2 { m00: m.m11, m01: cneg_s(m.m01), m10: cneg_s(m.m10), m11: m.m00 }
}

/// The conjugate transpose.
pub open spec fn dagger_s(m: Mat2) -> Mat2 {
    Mat2 { m00: conj_s(m.m00), m01: conj_s(m.m10), m10: conj_s(m.m01), m11: conj_s(m.m11) }
}

/// The conjugate transpose of the adjoint, used for circle conjugation.
pub open spec fn inv_dagger_s(m: Mat2) -> Mat2 {
    dagger_s(inv_s(m))
}

/// The rounded matrix product, row-by-column with two-term sums.
pub open spec fn mat_mul_s(x: Mat2, y: Mat2) -> Mat2 {
    Mat2 {
        m00: cadd_of(cmul_of(x.m00, y.m00), cmul_of(x.m01, y.m10)),
        m01: cadd_of(cmul_of(x.m00, y.m01), cmul_of(x.m01, y.m11)),
        m10: cadd_of(cmul_of(x.m10, y.m00), cmul_of(x.m11, y.m10)),
        m11: cadd_of(cmul_of(x.m10, y.m01), cmul_of(x.m11, y.m11)),
    }
}

/// The rounded entrywise matrix sum.
pub open spec fn mat_add_s(x: Mat2, y: Mat2) -> Mat2 {
    Mat2 {
        m00: cadd_of(x.m00, y.m00),
        m01: cadd_of(x.m01, y.m01),
        m10: cadd_of(x.m10, y.m10),
        m11: cadd_of(x.m11, y.m11),
    }
}

/// The rounded entrywise quotient of a matrix by a complex scalar.
pub open spec fn mat_div_c_s(m: Mat2, z: Cpx) -> Mat2 {
    Mat2 {
        m00: cdiv_of(m.m00, z),
        m01: cdiv_of(m.m01, z),
        m10: cdiv_of(m.m10, z),
        m11: cdiv_of(m.m11, z),
    }
}

/// The rounded trace.
pub open spec fn trace_s(m: Mat2) -> Cpx {
    cadd_of(m.m00, m.m11)
}

/// The rounded determinant.
pub open spec fn det_s(m: Mat2) -> Cpx {
    csub_of(cmul_of(m.m00, m.m11), cmul_of(m.m01, m.m10))
}

/// The identity matrix.
pub open spec fn identity_s() -> Mat2 {
    Mat2 {
        m00: Cpx { re: ONE_BITS, im: ZERO_BITS },
        m01: Cpx { re: ZERO_BITS, im: ZERO_BITS },
        m10: Cpx { re: ZERO_BITS, im: ZERO_BITS },
        m11: Cpx { re: ONE_BITS, im: ZERO_BITS },
    }
}

/// The matrix less half its trace times the identity.  Subtracting a diagonal
/// matrix leaves the off-diagonal entries unchanged.
pub open spec fn nilpotent_part_s(m: Mat2) -> Mat2 {
    let e = rmul_of(HALF_BITS, trace_s(m));
    Mat2 { m00: csub_of(m.m00, e), m01: m.m01, m10: m.m10, m11: csub_of(m.m11, e) }
}

/// The branch choice of the null-space computation: take the upper right
/// entry as the pivot when its squared norm is at least that of the lower
/// left entry.
pub open spec fn row_pivot_hi_s(m: Mat2) -> bool {
    fge_of(norm_sqr_of(m.m01), norm_sqr_of(m.m10))
}

/// The pivot square root of the null-space computation.
pub open spec fn row_pivot_s(m: Mat2) -> Cpx {
    if row_pivot_hi_s(m) {
        csqrt_of(cneg_s(m.m01))
    } else {
        csqrt_of(m.m10)
    }
}

/// A row vector spanning the null space of a nilpotent matrix, pivoting on
/// the off-diagonal entry of larger squared norm.
pub open spec fn row_vec_s(m: Mat2) -> RowVec2 {
    let s = row_pivot_s(m);
    if row_pivot_hi_s(m) {
        RowVec2 { c0: cdiv_of(m.m00, s), c1: cneg_s(s) }
    } else {
        RowVec2 { c0: s, c1: cdiv_of(m.m11, s) }
    }
}

/// The null-space computation is degenerate when its pivot is zero: the
/// division that follows would be by zero.
pub open spec fn row_vec_degenerate_s(m: Mat2) -> bool {
    c_is_zero_s(row_pivot_s(m))
}

/// The outer product of the conjugate transpose of one row vector with
/// another row vector.
pub open spec fn outer_s(vv: RowVec2, uv: RowVec2) -> Mat2 {
    Mat2 {
        m00: cmul_of(conj_s(vv.c0), uv.c0),
        m01: cmul_of(conj_s(vv.c0), uv.c1),
        m10: cmul_of(conj_s(vv.c1), uv.c0),
        m11: cmul_of(conj_s(vv.c1), uv.c1),
    }
}

/// The Hermitian-symmetrized outer product of the two null-space vectors.
pub open spec fn circle_pre_s(u: Mat2, v: Mat2) -> Mat2 {
    let uv = row_vec_s(nilpotent_part_s(u));
    let vv = row_vec_s(nilpotent_part_s(v));
    let m = outer_s(vv, uv);
    mat_add_s(m, dagger_s(m))
}

/// The normalizer of the circle construction: the principal square root of
/// the negated determinant of the symmetrized matrix.
pub open spec fn circle_norm_s(u: Mat2, v: Mat2) -> Cpx {
    csqrt_of(cneg_s(det_s(circle_pre_s(u, v))))
}

/// The circle the construction returns when no division degenerates.
pub open spec fn circle_for_transforms_s(u: Mat2, v: Mat2) -> Circle {
    Circle(mat_div_c_s(circle_pre_s(u, v), circle_norm_s(u, v)))
}

/// The construction succeeds exactly when neither null-space pivot nor the
/// determinant normalizer is zero.
pub open spec fn circle_for_transforms_ok_s(u: Mat2, v: Mat2) -> bool {
    &&& !row_vec_degenerate_s(nilpotent_part_s(u))
    &&& !row_vec_degenerate_s(nilpotent_part_s(v))
    &&& !c_is_zero_s(circle_norm_s(u, v))
}

/// Returns the adjoint of the matrix `m`.  The callers only use it on
/// matrices of determinant one, where the adjoint is the inverse.
pub fn inv(m: &Mat2) -> (r: Mat2)
    ensures
        r == inv_s(*m),
{
    Mat2 { m00: m.m11, m01: cneg(m.m01), m10: cneg(m.m10), m11: m.m00 }
}

/// Returns the conjugate transpose of `m`.
pub fn dagger(m: &Mat2) -> (r: Mat2)
    ensures
        r == dagger_s(*m),
{
    Mat2 { m00: conj(m.m00), m01: conj(m.m10), m10: conj(m.m01), m11: conj(m.m11) }
}

/// Returns the conjugate transpose of the adjoint of `m`.
pub fn inv_dagger(m: &Mat2) -> (r: Mat2)
    ensures
        r == inv_dagger_s(*m),
{
    Mat2 {
        m00: conj(m.m11),
        m01: cneg(conj(m.m10)),
        m10: cneg(conj(m.m01)),
        m11: conj(m.m00),
    }
}

/// Returns the rounded matrix product of `x` and `y`.
pub fn mat_mul(x: &Mat2, y: &Mat2) -> (r: Mat2)
    ensures
        r == mat_mul_s(*x, *y),
{
    Mat2 {
        m00: cadd(cmul(x.m00, y.m00), cmul(x.m01, y.m10)),
        m01: cadd(cmul(x.m00, y.m01), cmul(x.m01, y.m11)),
        m10: cadd(cmul(x.m10, y.m00), cmul(x.m11, y.m10)),
        m11: cadd(cmul(x.m10, y.m01), cmul(x.m11, y.m11)),
    }
}

/// Returns the identity matrix.
pub fn identity() -> (r: Mat2)
    ensures
        r == identity_s(),
{
    Mat2 {
        m00: Cpx { re: ONE_BITS, im: ZERO_BITS },
        m01: Cpx { re: ZERO_BITS, im: ZERO_BITS },
        m10: Cpx { re: ZERO_BITS, im: ZERO_BITS },
        m11: Cpx { re: ONE_BITS, im: ZERO_BITS },
    }
}

/// Returns a row vector spanning the null space of the nilpotent matrix `u`,
/// pivoting on the off-diagonal entry of larger squared norm so that the
/// division is never by the smaller value.  A zero pivot would divide by
/// zero and is rejected as a degenerate transform.
pub fn row_vector_for_nilpotent(u: &Mat2) -> (r: Result<RowVec2, Error>)
    ensures
        r is Ok <==> !row_vec_degenerate_s(*u),
        r is Ok ==> r->Ok_0 == row_vec_s(*u),
        r is Err ==> r->Err_0 == Error::DegenerateTransform,
{
    if fge(norm_sqr(u.m01), norm_sqr(u.m10)) {
        let s = csqrt(cneg(u.m01));
        if c_is_zero(s) {
            return Err(Error::DegenerateTransform);
        }
        Ok(RowVec2 { c0: cdiv(u.m00, s), c1: cneg(s) })
    } else {
        let s = csqrt(u.m10);
        if c_is_zero(s) {
            return Err(Error::DegenerateTransform);
        }
        Ok(RowVec2 { c0: s, c1: cdiv(u.m11, s) })
    }
}

/// Returns a circle containing the fixed points of the parabolic transforms
/// `u` and `v`, such that if `b` is any transform satisfying `b·u·b⁻¹ = v`,
/// then `b` applied to the circle is tangent to it.  A zero null-space pivot
/// or a zero determinant normalizer is rejected as a degenerate transform.
pub fn circle_for_transforms(u: &Mat2, v: &Mat2) -> (r: Result<Circle, Error>)
    ensures
        r is Ok <==> circle_for_transforms_ok_s(*u, *v),
        r is Ok ==> r->Ok_0 == circle_for_transforms_s(*u, *v),
        r is Err ==> r->Err_0 == Error::DegenerateTransform,
{
    let un = nilpotent_part(u);
    let vn = nilpotent_part(v);
    let uv = row_vector_for_nilpotent(&un)?;
    let vv = row_vector_for_nilpotent(&vn)?;
    let m = Mat2 {
        m00: cmul(conj(vv.c0), uv.c0),
        m01: cmul(conj(vv.c0), uv.c1),
        m10: cmul(conj(vv.c1), uv.c0),
        m11: cmul(conj(vv.c1), uv.c1),
    };
    let md = dagger(&m);
    let mh = Mat2 {
        m00: cadd(m.m00, md.m00),
        m01: cadd(m.m01, md.m01),
        m10: cadd(m.m10, md.m10),
        m11: cadd(m.m11, md.m11),
    };
    let d = csub(cmul(mh.m00, mh.m11), cmul(mh.m01, mh.m10));
    let s = csqrt(cneg(d));
    if c_is_zero(s) {
        return Err(Error::DegenerateTransform);
    }
    Ok(
        Circle(
            Mat2 {
                m00: cdiv(mh.m00, s),
                m01: cdiv(mh.m01, s),
                m10: cdiv(mh.m10, s),
                m11: cdiv(mh.m11, s),
            },
        ),
    )
}

/// Returns `m` less half its trace times the identity: the nilpotent part of
/// a parabolic-like transform.
pub fn nilpotent_part(m: &Mat2) -> (r: Mat2)
    ensures
        r == nilpotent_part_s(*m),
{
    let e = rmul(HALF_BITS, cadd(m.m00, m.m11));
    Mat2 { m00: csub(m.m00, e), m01: m.m01, m10: m.m10, m11: csub(m.m11, e) }
}

} // verus!
