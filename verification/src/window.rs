//! The affine map from a point cloud's bounding box onto a pixel window.
//!
//! The transform holds a uniform scale and one offset per axis, derived once
//! from the bounding box of the whole point cloud.  The scale fits the box
//! into the window and is shrunk by the margin factor 0.999 so that mapped
//! points land strictly inside the window.  An empty point cloud has no
//! bounding box and is rejected; a coordinate that is not a number would
//! corrupt the ordering that the bounding box scan relies on and is rejected
//! as well.

use vstd::prelude::*;
use crate::{Cpx, Error};
use crate::scalar::{HALF_BITS, MARGIN_BITS, is_nan_b, flt_of, fadd_of, fsub_of, fmul_of, fdiv_of, fmin_of, trunc_u32_of, from_u32_of};
use crate::scalar::{f64_is_nan, flt, fadd, fsub, fmul, fdiv, fmin, f64_trunc_u32, f64_from_u32};

verus! {

/// The affine map onto the pixel window: a uniform scale and per-axis
/// offsets, as bit patterns of doubles.
#[derive(Clone, Copy, PartialEq, Eq, Structural, Debug)]
pub struct CoordTransform {
    pub scale: u64,
    pub xoff: u64,
    pub yoff: u64,
}

/// The real parts of a point sequence.
pub open spec fn xs(pts: Seq<Cpx>) -> Seq<u64> {
    pts.map_values(|p: Cpx| p.re)
}

/// The imaginary parts of a point sequence.
pub open spec fn ys(pts: Seq<Cpx>) -> Seq<u64> {
    pts.map_values(|p: Cpx| p.im)
}

/// Some coordinate of the sequence is not a number.
pub open spec fn has_nan_s(pts: Seq<Cpx>) -> bool {
    exists|i: int|
        0 <= i < pts.len() && (is_nan_b(#[trigger] pts[i].re) || is_nan_b(pts[i].im))
}

/// The running minimum of a sequence of doubles, scanned left to right with
/// the strict `<` comparison (an earlier equal value is kept).
pub open spec fn scan_min(s: Seq<u64>) -> u64
    decreases s.len(),
{
    if s.len() <= 1 {
        s[0]
    } else {
        let m = scan_min(s.drop_last());
        if flt_of(s[s.len() - 1], m) {
            s[s.len() - 1]
        } else {
            m
        }
    }
}

/// The running maximum of a sequence of doubles, scanned left to right with
/// the strict `<` comparison (an earlier equal value is kept).
pub open spec fn scan_max(s: Seq<u64>) -> u64
    decreases s.len(),
{
    if s.len() <= 1 {
        s[0]
    } else {
        let m = scan_max(s.drop_last());
        if flt_of(m, s[s.len() - 1]) {
            s[s.len() - 1]
        } else {
            m
        }
    }
}

/// The uniform scale: the window dimension over the bounding-box extent,
/// whichever axis is tighter, shrunk by the margin factor.
pub open spec fn window_scale_s(pts: Seq<Cpx>, width: usize, height: usize) -> u64 {
    let sx = fdiv_of(from_u32_of(width as u32), fsub_of(scan_max(xs(pts)), scan_min(xs(pts))));
    let sy = fdiv_of(from_u32_of(height as u32), fsub_of(scan_max(ys(pts)), scan_min(ys(pts))));
    fmul_of(fmin_of(sx, sy), MARGIN_BITS)
}

/// The offset that centers a bounding-box axis within the scaled window
/// dimension.
pub open spec fn window_off_s(lo: u64, hi: u64, dim: usize, scale: u64) -> u64 {
    fmul_of(HALF_BITS, fsub_of(fadd_of(lo, hi), fdiv_of(from_u32_of(dim as u32), scale)))
}

/// The whole transform of a non-empty point cloud.
pub open spec fn window_transform_s(pts: Seq<Cpx>, width: usize, height: usize) -> CoordTransform {
    let scale = window_scale_s(pts, width, height);
    CoordTransform {
        scale,
        xoff: window_off_s(scan_min(xs(pts)), scan_max(xs(pts)), width, scale),
        yoff: window_off_s(scan_min(ys(pts)), scan_max(ys(pts)), height, scale),
    }
}

impl CoordTransform {
    /// Maps a point to pixel coordinates: scale the offset coordinates, then
    /// truncate.  No clamping is performed; the margin factor keeps points of
    /// the originating cloud inside the window.
    pub fn apply(&self, pt: &Cpx) -> (r: (usize, usize))
        ensures
            r.0 == trunc_u32_of(fmul_of(self.scale, fsub_of(pt.re, self.xoff))) as usize,
            r.1 == trunc_u32_of(fmul_of(self.scale, fsub_of(pt.im, self.yoff))) as usize,
    {
        let x = f64_trunc_u32(fmul(self.scale, fsub(pt.re, self.xoff)));
        let y = f64_trunc_u32(fmul(self.scale, fsub(pt.im, self.yoff)));
        (x as usize, y as usize)
    }
}

/// Computes the affine map that takes the bounding box of `pts` into the
/// `width` by `height` pixel window, centered, with the margin factor 0.999.
/// An empty point cloud is rejected as `EmptyPointSet`; a coordinate that is
/// not a number is rejected as `InvalidPriority`.
pub fn window_transform(pts: &Vec<Cpx>, width: usize, height: usize) -> (r: Result<
    CoordTransform,
    Error,
>)
    requires
        width <= u32::MAX as usize,
        height <= u32::MAX as usize,
    ensures
        (r is Err && r->Err_0 == Error::EmptyPointSet) <==> pts@.len() == 0,
        (r is Err && r->Err_0 == Error::InvalidPriority) <==> (pts@.len() > 0 && has_nan_s(pts@)),
        r is Ok <==> (pts@.len() > 0 && !has_nan_s(pts@)),
        r is Ok ==> r->Ok_0 == window_transform_s(pts@, width, height),
{
    if pts.len() == 0 {
        return Err(Error::EmptyPointSet);
    }
    let mut i: usize = 0;
    while i < pts.len()
        invariant
            pts@.len() > 0,
            i <= pts@.len(),
            forall|j: int| 0 <= j < i as int ==> !is_nan_b(#[trigger] pts@[j].re),
            forall|j: int| 0 <= j < i as int ==> !is_nan_b(#[trigger] pts@[j].im),
        decreases pts@.len() - i,
    {
        if f64_is_nan(pts[i].re) || f64_is_nan(pts[i].im) {
            return Err(Error::InvalidPriority);
        }
        assert(!is_nan_b(pts@[i as int].re) && !is_nan_b(pts@[i as int].im));
        i = i + 1;
    }
    let mut xmin = pts[0].re;
    let mut xmax = pts[0].re;
    let mut ymin = pts[0].im;
    let mut ymax = pts[0].im;
    proof {
        assert(xs(pts@.take(1)) =~= seq![pts@[0].re]);
        assert(ys(pts@.take(1)) =~= seq![pts@[0].im]);
    }
    let mut j: usize = 1;
    while j < pts.len()
        invariant
            pts@.len() > 0,
            1 <= j <= pts@.len(),
            xmin == scan_min(xs(pts@.take(j as int))),
            xmax == scan_max(xs(pts@.take(j as int))),
            ymin == scan_min(ys(pts@.take(j as int))),
            ymax == scan_max(ys(pts@.take(j as int))),
        decreases pts@.len() - j,
    {
        proof {
            assert(xs(pts@.take(j as int + 1)).drop_last() =~= xs(pts@.take(j as int)));
            assert(ys(pts@.take(j as int + 1)).drop_last() =~= ys(pts@.take(j as int)));
            assert(xs(pts@.take(j as int + 1)).last() == pts@[j as int].re);
            assert(ys(pts@.take(j as int + 1)).last() == pts@[j as int].im);
        }
        if flt(pts[j].re, xmin) {
            xmin = pts[j].re;
        }
        if flt(xmax, pts[j].re) {
            xmax = pts[j].re;
        }
        if flt(pts[j].im, ymin) {
            ymin = pts[j].im;
        }
        if flt(ymax, pts[j].im) {
            ymax = pts[j].im;
        }
        j = j + 1;
    }
    proof {
        assert(pts@.take(pts@.len() as int) =~= pts@);
    }
    let w = f64_from_u32(width as u32);
    let h = f64_from_u32(height as u32);
    let sx = fdiv(w, fsub(xmax, xmin));
    let sy = fdiv(h, fsub(ymax, ymin));
    let scale = fmul(fmin(sx, sy), MARGIN_BITS);
    let xoff = fmul(HALF_BITS, fsub(fadd(xmin, xmax), fdiv(w, scale)));
    let yoff = fmul(HALF_BITS, fsub(fadd(ymin, ymax), fdiv(h, scale)));
    Ok(CoordTransform { scale, xoff, yoff })
}

} // verus!
