//! A point sampler for limit sets of two-generator Kleinian groups.
//!
//! From one or two complex trace parameters the crate builds the four
//! generator matrices of the group together with approximating boundary
//! circles, refines a best-first frontier over freely reduced words in the
//! generators until enough limit points are collected, and computes the
//! affine transform that maps the point cloud into a pixel window.
//!
//! All scalars are doubles carried as their IEEE-754 bit patterns; the
//! rounded arithmetic is performed by `num_complex` behind named, trusted
//! operations, while everything the crate decides — matrix assembly, branch
//! selection, the traversal, error detection — is verified.

use vstd::prelude::*;

pub mod scalar;
pub mod cpx;
pub mod algebra;
pub mod circle;
pub mod queue;
pub mod window;

use crate::algebra::{Mat2, inv_s, mat_mul_s, circle_for_transforms_s, circle_for_transforms_ok_s, inv, mat_mul, circle_for_transforms};
use crate::circle::{Circle, center_s, mul_circle_s};
use crate::cpx::{cneg_s, c_is_zero_s, cadd_of, csub_of, cmul_of, cdiv_of, csqrt_of, rmul_of, addr_of, subr_of, rdiv_of};
use crate::cpx::{cneg, c_is_zero, cadd, csub, cmul, cdiv, csqrt, rmul, addr, subr, rdiv};
use crate::queue::{QueueItem, CircleQueue, init_ok_s, init_items_s, run_queue, advance_s, item_wf, freely_reduced, word_prod};
use crate::scalar::{HALF_BITS, ONE_BITS, TWO_BITS, FOUR_BITS, ZERO_BITS};

verus! {

/// A complex number, held as the IEEE-754 bit patterns of its real and
/// imaginary parts.
#[derive(Clone, Copy, PartialEq, Eq, Structural, Debug)]
pub struct Cpx {
    pub re: u64,
    pub im: u64,
}

/// The failures of the numerical engine.  All are local numeric or domain
/// conditions; none is recoverable by retry.
#[derive(Clone, Copy, PartialEq, Eq, Structural, Debug)]
pub enum Error {
    /// The circle construction met a degenerate null-space vector or a zero
    /// determinant normalizer.
    DegenerateTransform,
    /// A generator construction divided by a zero intermediate value for the
    /// given trace parameters.
    SingularParameters,
    /// The window transform was invoked with no points.
    EmptyPointSet,
    /// A priority or coordinate that is not a number would corrupt an
    /// ordering; it is rejected as soon as it appears.
    InvalidPriority,
}

/// A generator of a Kleinian group, along with a circle that approximates
/// a boundary of a fundamental domain.
///
/// Usually, there is no fundamental domain with circular boundaries, so the
/// circles are not tangent to each other.  But this heuristic works well in
/// practice.
#[derive(Clone, Copy, PartialEq, Eq, Structural, Debug)]
pub struct Generator {
    pub matrix: Mat2,
    pub circle: Circle,
}

/// The relator scheme a generator construction satisfies.
#[derive(Clone, Copy, PartialEq, Eq, Structural, Debug)]
pub enum Scheme {
    /// `trace([a,b]) = -2`, from two trace parameters.
    Commutator,
    /// `trace(abab⁻¹) = -2`, from two trace parameters.
    XXRelator,
    /// `trace(ab) = trace(ab⁻¹) = 2`, from one trace parameter.
    XRelator,
}

/// The imaginary unit.
pub open spec fn c_i() -> Cpx {
    Cpx { re: ZERO_BITS, im: ONE_BITS }
}

/// The complex number one.
pub open spec fn c_one() -> Cpx {
    Cpx { re: ONE_BITS, im: ZERO_BITS }
}

/// The commutator trace `tab`: the principal branch of the quadratic solved
/// from the two trace parameters.
pub open spec fn comm_tab_s(ta: Cpx, tb: Cpx) -> Cpx {
    let c0 = cadd_of(cmul_of(ta, ta), cmul_of(tb, tb));
    let c1 = cmul_of(ta, tb);
    rmul_of(
        HALF_BITS,
        csub_of(c1, csqrt_of(csub_of(cmul_of(c1, c1), rmul_of(FOUR_BITS, c0)))),
    )
}

/// The divisor of `z0` in the commutator construction.
pub open spec fn comm_den_s(ta: Cpx, tb: Cpx) -> Cpx {
    let tab = comm_tab_s(ta, tb);
    cadd_of(
        csub_of(cmul_of(tb, tab), rmul_of(TWO_BITS, ta)),
        cmul_of(rmul_of(TWO_BITS, c_i()), tab),
    )
}

/// The pivot `z0` of the commutator construction.
pub open spec fn comm_z0_s(ta: Cpx, tb: Cpx) -> Cpx {
    cdiv_of(cmul_of(subr_of(comm_tab_s(ta, tb), TWO_BITS), tb), comm_den_s(ta, tb))
}

/// The commutator construction divides by `z0` and by its divisor; it is
/// singular when either is zero.
pub open spec fn comm_singular_s(ta: Cpx, tb: Cpx) -> bool {
    c_is_zero_s(comm_den_s(ta, tb)) || c_is_zero_s(comm_z0_s(ta, tb))
}

/// The matrix `b` of the commutator construction.
pub open spec fn comm_b_s(ta: Cpx, tb: Cpx) -> Mat2 {
    let htb = rmul_of(HALF_BITS, tb);
    Mat2 { m00: csub_of(htb, c_i()), m01: htb, m10: htb, m11: cadd_of(htb, c_i()) }
}

/// The matrix `ab` of the commutator construction.
pub open spec fn comm_ab_s(ta: Cpx, tb: Cpx) -> Mat2 {
    let htab = rmul_of(HALF_BITS, comm_tab_s(ta, tb));
    let z0 = comm_z0_s(ta, tb);
    Mat2 {
        m00: htab,
        m01: cdiv_of(subr_of(htab, ONE_BITS), z0),
        m10: cmul_of(addr_of(htab, ONE_BITS), z0),
        m11: htab,
    }
}

/// The four conjugate words of the commutator construction: the cyclic
/// length-four products whose adjacent pairs bound the four circles.
pub open spec fn comm_ks_s(ta: Cpx, tb: Cpx) -> (Mat2, Mat2, Mat2, Mat2) {
    let b = comm_b_s(ta, tb);
    let bi = inv_s(b);
    let a = mat_mul_s(comm_ab_s(ta, tb), bi);
    let ai = inv_s(a);
    (
        mat_mul_s(mat_mul_s(mat_mul_s(bi, a), b), ai),
        mat_mul_s(mat_mul_s(mat_mul_s(a, b), ai), bi),
        mat_mul_s(mat_mul_s(mat_mul_s(b, ai), bi), a),
        mat_mul_s(mat_mul_s(mat_mul_s(ai, bi), a), b),
    )
}

/// The commutator construction succeeds when no division is singular and all
/// four circle constructions go through.
pub open spec fn comm_ok_s(ta: Cpx, tb: Cpx) -> bool {
    let ks = comm_ks_s(ta, tb);
    &&& !comm_singular_s(ta, tb)
    &&& circle_for_transforms_ok_s(ks.0, ks.1)
    &&& circle_for_transforms_ok_s(ks.1, ks.2)
    &&& circle_for_transforms_ok_s(ks.2, ks.3)
    &&& circle_for_transforms_ok_s(ks.3, ks.0)
}

/// The four generators `[a, b, a⁻¹, b⁻¹]` of the commutator construction with
/// their boundary circles.
pub open spec fn comm_gens_s(ta: Cpx, tb: Cpx) -> Seq<Generator> {
    let b = comm_b_s(ta, tb);
    let bi = inv_s(b);
    let a = mat_mul_s(comm_ab_s(ta, tb), bi);
    let ai = inv_s(a);
    let ks = comm_ks_s(ta, tb);
    seq![
        Generator { matrix: a, circle: circle_for_transforms_s(ks.0, ks.1) },
        Generator { matrix: b, circle: circle_for_transforms_s(ks.1, ks.2) },
        Generator { matrix: ai, circle: circle_for_transforms_s(ks.2, ks.3) },
        Generator { matrix: bi, circle: circle_for_transforms_s(ks.3, ks.0) },
    ]
}

/// Returns a quadruple of generators `[a, b, a⁻¹, b⁻¹]` such that
/// `tr a = ta`, `tr b = tb`, and `tr aba⁻¹b⁻¹ = -2`.  The formula is taken
/// from p229 of Indra's Pearls by Mumford, Series, and Wright.  A zero
/// intermediate divisor is rejected as `SingularParameters`; a degenerate
/// circle construction as `DegenerateTransform`.
pub fn generators(ta: Cpx, tb: Cpx) -> (r: Result<[Generator; 4], Error>)
    ensures
        r is Ok <==> comm_ok_s(ta, tb),
        r is Ok ==> (r->Ok_0)@ == comm_gens_s(ta, tb),
        r is Err ==> r->Err_0 == (if comm_singular_s(ta, tb) {
            Error::SingularParameters
        } else {
            Error::DegenerateTransform
        }),
{
    let c0 = cadd(cmul(ta, ta), cmul(tb, tb));
    let c1 = cmul(ta, tb);
    let tab = rmul(HALF_BITS, csub(c1, csqrt(csub(cmul(c1, c1), rmul(FOUR_BITS, c0)))));
    let i = Cpx { re: ZERO_BITS, im: ONE_BITS };
    let den = cadd(csub(cmul(tb, tab), rmul(TWO_BITS, ta)), cmul(rmul(TWO_BITS, i), tab));
    if c_is_zero(den) {
        return Err(Error::SingularParameters);
    }
    let z0 = cdiv(cmul(subr(tab, TWO_BITS), tb), den);
    if c_is_zero(z0) {
        return Err(Error::SingularParameters);
    }
    let htb = rmul(HALF_BITS, tb);
    let htab = rmul(HALF_BITS, tab);
    let b = Mat2 { m00: csub(htb, i), m01: htb, m10: htb, m11: cadd(htb, i) };
    let ab = Mat2 {
        m00: htab,
        m01: cdiv(subr(htab, ONE_BITS), z0),
        m10: cmul(addr(htab, ONE_BITS), z0),
        m11: htab,
    };
    let bi = inv(&b);
    let a = mat_mul(&ab, &bi);
    let ai = inv(&a);
    let k1 = mat_mul(&mat_mul(&mat_mul(&bi, &a), &b), &ai);
    let k2 = mat_mul(&mat_mul(&mat_mul(&a, &b), &ai), &bi);
    let k3 = mat_mul(&mat_mul(&mat_mul(&b, &ai), &bi), &a);
    let k4 = mat_mul(&mat_mul(&mat_mul(&ai, &bi), &a), &b);
    let ca = circle_for_transforms(&k1, &k2)?;
    let cb = circle_for_transforms(&k2, &k3)?;
    let cai = circle_for_transforms(&k3, &k4)?;
    let cbi = circle_for_transforms(&k4, &k1)?;
    let gens = [
        Generator { matrix: a, circle: ca },
        Generator { matrix: b, circle: cb },
        Generator { matrix: ai, circle: cai },
        Generator { matrix: bi, circle: cbi },
    ];
    proof {
        assert(gens@ =~= comm_gens_s(ta, tb));
    }
    Ok(gens)
}

/// The divisor `b1` of the `abab⁻¹` construction.
pub open spec fn xx_b1_s(ta: Cpx, tb: Cpx) -> Cpx {
    let hta = rmul_of(HALF_BITS, ta);
    let htb = rmul_of(HALF_BITS, tb);
    let hta21 = subr_of(cmul_of(hta, hta), ONE_BITS);
    let htb2 = cmul_of(htb, htb);
    let c0 = addr_of(cmul_of(hta21, addr_of(htb2, ONE_BITS)), TWO_BITS);
    let c1 = cmul_of(ta, csqrt_of(addr_of(cmul_of(hta21, htb2), ONE_BITS)));
    csqrt_of(cadd_of(c0, c1))
}

/// The `abab⁻¹` construction divides by `b1`; it is singular when `b1` is
/// zero.
pub open spec fn xx_singular_s(ta: Cpx, tb: Cpx) -> bool {
    c_is_zero_s(xx_b1_s(ta, tb))
}

/// The matrix `a` of the `abab⁻¹` construction.
pub open spec fn xx_a_s(ta: Cpx) -> Mat2 {
    let hta = rmul_of(HALF_BITS, ta);
    Mat2 { m00: hta, m01: subr_of(cmul_of(hta, hta), ONE_BITS), m10: c_one(), m11: hta }
}

/// The matrix `b` of the `abab⁻¹` construction.
pub open spec fn xx_b_s(ta: Cpx, tb: Cpx) -> Mat2 {
    let htb = rmul_of(HALF_BITS, tb);
    let b1 = xx_b1_s(ta, tb);
    Mat2 { m00: htb, m01: b1, m10: cdiv_of(subr_of(cmul_of(htb, htb), ONE_BITS), b1), m11: htb }
}

/// The four conjugate words of the `abab⁻¹` construction.  The words differ
/// from the commutator construction's, reflecting the different relator; the
/// circle pairing over adjacent words is the same.
pub open spec fn xx_ks_s(ta: Cpx, tb: Cpx) -> (Mat2, Mat2, Mat2, Mat2) {
    let a = xx_a_s(ta);
    let b = xx_b_s(ta, tb);
    let ai = inv_s(a);
    let bi = inv_s(b);
    (
        mat_mul_s(mat_mul_s(mat_mul_s(bi, ai), b), ai),
        mat_mul_s(mat_mul_s(mat_mul_s(a, b), a), bi),
        mat_mul_s(mat_mul_s(mat_mul_s(b, a), bi), a),
        mat_mul_s(mat_mul_s(mat_mul_s(ai, bi), ai), b),
    )
}

/// The `abab⁻¹` construction succeeds when `b1` is not zero and all four
/// circle constructions go through.
pub open spec fn xx_ok_s(ta: Cpx, tb: Cpx) -> bool {
    let ks = xx_ks_s(ta, tb);
    &&& !xx_singular_s(ta, tb)
    &&& circle_for_transforms_ok_s(ks.0, ks.1)
    &&& circle_for_transforms_ok_s(ks.1, ks.2)
    &&& circle_for_transforms_ok_s(ks.2, ks.3)
    &&& circle_for_transforms_ok_s(ks.3, ks.0)
}

/// The four generators of the `abab⁻¹` construction.
pub open spec fn xx_gens_s(ta: Cpx, tb: Cpx) -> Seq<Generator> {
    let a = xx_a_s(ta);
    let b = xx_b_s(ta, tb);
    let ai = inv_s(a);
    let bi = inv_s(b);
    let ks = xx_ks_s(ta, tb);
    seq![
        Generator { matrix: a, circle: circle_for_transforms_s(ks.0, ks.1) },
        Generator { matrix: b, circle: circle_for_transforms_s(ks.1, ks.2) },
        Generator { matrix: ai, circle: circle_for_transforms_s(ks.2, ks.3) },
        Generator { matrix: bi, circle: circle_for_transforms_s(ks.3, ks.0) },
    ]
}

/// Returns a quadruple of generators `[a, b, a⁻¹, b⁻¹]` such that
/// `tr a = ta`, `tr b = tb`, and `tr abab⁻¹ = -2`.
pub fn generators_xx(ta: Cpx, tb: Cpx) -> (r: Result<[Generator; 4], Error>)
    ensures
        r is Ok <==> xx_ok_s(ta, tb),
        r is Ok ==> (r->Ok_0)@ == xx_gens_s(ta, tb),
        r is Err ==> r->Err_0 == (if xx_singular_s(ta, tb) {
            Error::SingularParameters
        } else {
            Error::DegenerateTransform
        }),
{
    let hta = rmul(HALF_BITS, ta);
    let htb = rmul(HALF_BITS, tb);
    let hta21 = subr(cmul(hta, hta), ONE_BITS);
    let htb2 = cmul(htb, htb);
    let c0 = addr(cmul(hta21, addr(htb2, ONE_BITS)), TWO_BITS);
    let c1 = cmul(ta, csqrt(addr(cmul(hta21, htb2), ONE_BITS)));
    let b1 = csqrt(cadd(c0, c1));
    if c_is_zero(b1) {
        return Err(Error::SingularParameters);
    }
    let a = Mat2 { m00: hta, m01: hta21, m10: Cpx { re: ONE_BITS, im: ZERO_BITS }, m11: hta };
    let b = Mat2 {
        m00: htb,
        m01: b1,
        m10: cdiv(subr(cmul(htb, htb), ONE_BITS), b1),
        m11: htb,
    };
    let ai = inv(&a);
    let bi = inv(&b);
    let k1 = mat_mul(&mat_mul(&mat_mul(&bi, &ai), &b), &ai);
    let k2 = mat_mul(&mat_mul(&mat_mul(&a, &b), &a), &bi);
    let k3 = mat_mul(&mat_mul(&mat_mul(&b, &a), &bi), &a);
    let k4 = mat_mul(&mat_mul(&mat_mul(&ai, &bi), &ai), &b);
    let ca = circle_for_transforms(&k1, &k2)?;
    let cb = circle_for_transforms(&k2, &k3)?;
    let cai = circle_for_transforms(&k3, &k4)?;
    let cbi = circle_for_transforms(&k4, &k1)?;
    let gens = [
        Generator { matrix: a, circle: ca },
        Generator { matrix: b, circle: cb },
        Generator { matrix: ai, circle: cai },
        Generator { matrix: bi, circle: cbi },
    ];
    proof {
        assert(gens@ =~= xx_gens_s(ta, tb));
    }
    Ok(gens)
}

/// The half trace `ah` of the single-trace construction.
pub open spec fn x_ah_s(ta: Cpx) -> Cpx {
    rmul_of(HALF_BITS, ta)
}

/// The single-trace construction divides by `ah`; it is singular when `ah`
/// is zero.
pub open spec fn x_singular_s(ta: Cpx) -> bool {
    c_is_zero_s(x_ah_s(ta))
}

/// The matrix `a` of the single-trace construction.
pub open spec fn x_a_s(ta: Cpx) -> Mat2 {
    let ah = x_ah_s(ta);
    Mat2 { m00: ah, m01: c_one(), m10: subr_of(cmul_of(ah, ah), ONE_BITS), m11: ah }
}

/// The matrix `b` of the single-trace construction, derived from the
/// reciprocal of the half trace.
pub open spec fn x_b_s(ta: Cpx) -> Mat2 {
    let ah = x_ah_s(ta);
    let bh = rdiv_of(ONE_BITS, ah);
    Mat2 { m00: bh, m01: cneg_s(bh), m10: csub_of(ah, bh), m11: bh }
}

/// The four conjugate words of the single-trace construction: the length-two
/// words `{ab, ba⁻¹, a⁻¹b⁻¹, b⁻¹a}` in the order the circle pairing uses.
pub open spec fn x_ks_s(ta: Cpx) -> (Mat2, Mat2, Mat2, Mat2) {
    let a = x_a_s(ta);
    let b = x_b_s(ta);
    let ai = inv_s(a);
    let bi = inv_s(b);
    (mat_mul_s(bi, ai), mat_mul_s(a, bi), mat_mul_s(b, a), mat_mul_s(ai, b))
}

/// The single-trace construction succeeds when `ah` is not zero and all four
/// circle constructions go through.
pub open spec fn x_ok_s(ta: Cpx) -> bool {
    let ks = x_ks_s(ta);
    &&& !x_singular_s(ta)
    &&& circle_for_transforms_ok_s(ks.0, ks.1)
    &&& circle_for_transforms_ok_s(ks.1, ks.2)
    &&& circle_for_transforms_ok_s(ks.2, ks.3)
    &&& circle_for_transforms_ok_s(ks.3, ks.0)
}

/// The four generators of the single-trace construction.
pub open spec fn x_gens_s(ta: Cpx) -> Seq<Generator> {
    let a = x_a_s(ta);
    let b = x_b_s(ta);
    let ai = inv_s(a);
    let bi = inv_s(b);
    let ks = x_ks_s(ta);
    seq![
        Generator { matrix: a, circle: circle_for_transforms_s(ks.0, ks.1) },
        Generator { matrix: b, circle: circle_for_transforms_s(ks.1, ks.2) },
        Generator { matrix: ai, circle: circle_for_transforms_s(ks.2, ks.3) },
        Generator { matrix: bi, circle: circle_for_transforms_s(ks.3, ks.0) },
    ]
}

/// Returns a quadruple of generators `[a, b, a⁻¹, b⁻¹]` such that
/// `tr a = ta` and `tr ab = tr ab⁻¹ = 2`, from a single trace parameter.
pub fn generators_x(ta: Cpx) -> (r: Result<[Generator; 4], Error>)
    ensures
        r is Ok <==> x_ok_s(ta),
        r is Ok ==> (r->Ok_0)@ == x_gens_s(ta),
        r is Err ==> r->Err_0 == (if x_singular_s(ta) {
            Error::SingularParameters
        } else {
            Error::DegenerateTransform
        }),
{
    let ah = rmul(HALF_BITS, ta);
    if c_is_zero(ah) {
        return Err(Error::SingularParameters);
    }
    let bh = rdiv(ONE_BITS, ah);
    let a = Mat2 {
        m00: ah,
        m01: Cpx { re: ONE_BITS, im: ZERO_BITS },
        m10: subr(cmul(ah, ah), ONE_BITS),
        m11: ah,
    };
    let b = Mat2 { m00: bh, m01: cneg(bh), m10: csub(ah, bh), m11: bh };
    let ai = inv(&a);
    let bi = inv(&b);
    let k1 = mat_mul(&bi, &ai);
    let k2 = mat_mul(&a, &bi);
    let k3 = mat_mul(&b, &a);
    let k4 = mat_mul(&ai, &b);
    let ca = circle_for_transforms(&k1, &k2)?;
    let cb = circle_for_transforms(&k2, &k3)?;
    let cai = circle_for_transforms(&k3, &k4)?;
    let cbi = circle_for_transforms(&k4, &k1)?;
    let gens = [
        Generator { matrix: a, circle: ca },
        Generator { matrix: b, circle: cb },
        Generator { matrix: ai, circle: cai },
        Generator { matrix: bi, circle: cbi },
    ];
    proof {
        assert(gens@ =~= x_gens_s(ta));
    }
    Ok(gens)
}

/// Builds the four generators under the chosen relator scheme.  The
/// single-trace scheme reads only `ta`.
pub fn generators_for_scheme(scheme: Scheme, ta: Cpx, tb: Cpx) -> (r: Result<
    [Generator; 4],
    Error,
>)
    ensures
        scheme is Commutator ==> (r is Ok <==> comm_ok_s(ta, tb)) && (r is Ok ==> (r->Ok_0)@
            == comm_gens_s(ta, tb)),
        scheme is XXRelator ==> (r is Ok <==> xx_ok_s(ta, tb)) && (r is Ok ==> (r->Ok_0)@
            == xx_gens_s(ta, tb)),
        scheme is XRelator ==> (r is Ok <==> x_ok_s(ta)) && (r is Ok ==> (r->Ok_0)@ == x_gens_s(
            ta,
        )),
        r is Err ==> (r->Err_0 == Error::SingularParameters || r->Err_0
            == Error::DegenerateTransform),
{
    match scheme {
        Scheme::Commutator => generators(ta, tb),
        Scheme::XXRelator => generators_xx(ta, tb),
        Scheme::XRelator => generators_x(ta),
    }
}

/// The number of points a run for `n` requested points produces: the frontier
/// starts at four items and grows by two each step, so it stops at the first
/// value of the form `4 + 2k` at or above `n`.
pub open spec fn point_count_s(n: int) -> int {
    if n <= 4 {
        4
    } else if n % 2 == 0 {
        n
    } else {
        n + 1
    }
}

/// The produced point count is the least value of the form `4 + 2k` that is
/// at least the requested count: it never falls short, and it exceeds the
/// request by less than a full step.
pub proof fn lemma_point_count_minimal(n: int)
    ensures
        point_count_s(n) >= 4,
        point_count_s(n) >= n,
        (point_count_s(n) - 4) % 2 == 0,
        point_count_s(n) == 4 || point_count_s(n) - 2 < n,
{
}

/// The frontier after refining the initial items until at least `n` are held,
/// or nothing when a priority that is not a number arises on the way.
pub open spec fn final_items_s(gens: Seq<Generator>, n: int) -> Option<Seq<QueueItem>> {
    if init_ok_s(gens) {
        run_queue(gens, init_items_s(gens), n)
    } else {
        None
    }
}

/// A run for `n` points over `gens` completes without meeting a priority
/// that is not a number.
pub open spec fn points_ok_s(gens: Seq<Generator>, n: int) -> bool {
    final_items_s(gens, n) is Some
}

/// The points of a completed run: the center of each remaining item's
/// transformed circle.
pub open spec fn points_s(gens: Seq<Generator>, n: int) -> Seq<Cpx> {
    match final_items_s(gens, n) {
        Option::Some(fin) => fin.map_values(
            |it: QueueItem| center_s(mul_circle_s(it.matrix, gens[it.last as int].circle)),
        ),
        Option::None => Seq::empty(),
    }
}

/// The limit point a freely reduced word stands for: the center of the
/// circle obtained by letting the product of the word's prefix act on the
/// boundary circle of the word's last generator.
pub open spec fn point_of_word_s(gens: Seq<Generator>, w: Seq<int>) -> Cpx {
    center_s(mul_circle_s(word_prod(gens, w.drop_last()), gens[w.last()].circle))
}

/// Refines the frontier until it holds at least `num_points` items, then
/// returns the center of each item's transformed circle.  The result holds
/// exactly `4 + 2k` points for the smallest `k` with `4 + 2k ≥ num_points`.
/// A priority that is not a number is rejected as `InvalidPriority`.
pub fn generate_points(gens: [Generator; 4], num_points: usize) -> (r: Result<Vec<Cpx>, Error>)
    ensures
        r is Ok <==> points_ok_s(gens@, num_points as int),
        r is Ok ==> (r->Ok_0)@ == points_s(gens@, num_points as int),
        r is Ok ==> (r->Ok_0)@.len() == point_count_s(num_points as int),
        r is Ok ==> forall|i: int|
            0 <= i < (r->Ok_0)@.len() ==> exists|w: Seq<int>|
                freely_reduced(w) && w.len() >= 1 && #[trigger] (r->Ok_0)@[i] == point_of_word_s(
                    gens@,
                    w,
                ),
        r is Err ==> r->Err_0 == Error::InvalidPriority,
{
    let ghost n = num_points as int;
    let mut queue = match CircleQueue::new(gens) {
        Ok(q) => q,
        Err(e) => {
            return Err(e);
        },
    };
    while queue.items.len() < num_points
        invariant
            n == num_points as int,
            queue.wf(),
            queue.gens == gens,
            init_ok_s(gens@),
            queue.items@.len() >= 4,
            queue.items@.len() % 2 == 0,
            queue.items@.len() == 4 || queue.items@.len() < n + 2,
            run_queue(gens@, queue.items@, n) == run_queue(gens@, init_items_s(gens@), n),
        decreases (if n - queue.items@.len() >= 0 {
            n - queue.items@.len()
        } else {
            0
        }),
    {
        let ghost before = queue.items@;
        proof {
            assert(before.len() < n);
            assert(before.len() >= 4);
        }
        match queue.advance() {
            Ok(()) => {
                proof {
                    assert(advance_s(gens@, before) == Some(queue.items@));
                    assert(run_queue(gens@, before, n) == run_queue(gens@, queue.items@, n));
                }
            },
            Err(e) => {
                proof {
                    assert(advance_s(gens@, before) is None);
                    assert(run_queue(gens@, before, n) is None);
                }
                return Err(e);
            },
        }
    }
    proof {
        assert(run_queue(gens@, queue.items@, n) == Some(queue.items@));
        assert(queue.items@.len() == point_count_s(n));
    }
    let ghost fin = queue.items@;
    let ghost gens_v = gens@;
    let ghost words = queue.words@;
    proof {
        assert(words.len() == fin.len());
        assert(forall|i: int| 0 <= i < fin.len() ==> item_wf(gens_v, #[trigger] fin[i], words[i]));
    }
    let circles = queue.circles();
    let mut pts: Vec<Cpx> = Vec::new();
    let mut i: usize = 0;
    while i < circles.len()
        invariant
            circles@.len() == fin.len(),
            forall|j: int|
                0 <= j < fin.len() ==> #[trigger] circles@[j] == mul_circle_s(
                    fin[j].matrix,
                    gens_v[fin[j].last as int].circle,
                ),
            i <= fin.len(),
            pts@.len() == i as int,
            forall|j: int| 0 <= j < i as int ==> #[trigger] pts@[j] == center_s(circles@[j]),
        decreases circles@.len() - i,
    {
        let c = circles[i];
        pts.push(c.center());
        i = i + 1;
    }
    proof {
        assert(pts@ =~= points_s(gens_v, n));
        assert forall|j: int| 0 <= j < pts@.len() implies exists|w: Seq<int>|
            freely_reduced(w) && w.len() >= 1 && #[trigger] pts@[j] == point_of_word_s(
                gens_v,
                w,
            ) by {
            let w = words[j];
            assert(item_wf(gens_v, fin[j], words[j]));
            assert(pts@[j] == point_of_word_s(gens_v, w));
        }
    }
    Ok(pts)
}

/// Builds the commutator-scheme generators from the two traces and refines
/// them into at least `num_points` limit points.
pub fn generate_points_from_traces(ta: Cpx, tb: Cpx, num_points: usize) -> (r: Result<
    Vec<Cpx>,
    Error,
>)
    ensures
        r is Ok <==> comm_ok_s(ta, tb) && points_ok_s(comm_gens_s(ta, tb), num_points as int),
        r is Ok ==> (r->Ok_0)@ == points_s(comm_gens_s(ta, tb), num_points as int),
        r is Ok ==> (r->Ok_0)@.len() == point_count_s(num_points as int),
        r is Err ==> r->Err_0 == (if !comm_ok_s(ta, tb) {
            if comm_singular_s(ta, tb) {
                Error::SingularParameters
            } else {
                Error::DegenerateTransform
            }
        } else {
            Error::InvalidPriority
        }),
{
    let gens = generators(ta, tb)?;
    generate_points(gens, num_points)
}

} // verus!
