use kleinian::algebra::{circle_for_transforms, inv, Mat2};
use kleinian::circle::mul_circle;
use kleinian::queue::CircleQueue;
use kleinian::window::window_transform;
use kleinian::{generate_points, generate_points_from_traces, generators, generators_for_scheme, generators_x, generators_xx, Cpx, Error, Generator, Scheme};
use num_complex::Complex64;

fn c(re: f64, im: f64) -> Cpx {
    Cpx { re: re.to_bits(), im: im.to_bits() }
}

fn cc(z: Cpx) -> Complex64 {
    Complex64::new(f64::from_bits(z.re), f64::from_bits(z.im))
}

fn to_mat(m: &Mat2) -> [Complex64; 4] {
    [cc(m.m00), cc(m.m01), cc(m.m10), cc(m.m11)]
}

fn from_mat(m: &[Complex64; 4]) -> Mat2 {
    Mat2 {
        m00: Cpx { re: m[0].re.to_bits(), im: m[0].im.to_bits() },
        m01: Cpx { re: m[1].re.to_bits(), im: m[1].im.to_bits() },
        m10: Cpx { re: m[2].re.to_bits(), im: m[2].im.to_bits() },
        m11: Cpx { re: m[3].re.to_bits(), im: m[3].im.to_bits() },
    }
}

fn mat_det(m: &[Complex64; 4]) -> Complex64 {
    m[0] * m[3] - m[1] * m[2]
}

fn mat_prod(x: &[Complex64; 4], y: &[Complex64; 4]) -> [Complex64; 4] {
    [
        x[0] * y[0] + x[1] * y[2],
        x[0] * y[1] + x[1] * y[3],
        x[2] * y[0] + x[3] * y[2],
        x[2] * y[1] + x[3] * y[3],
    ]
}

fn mat_trace(m: &[Complex64; 4]) -> Complex64 {
    m[0] + m[3]
}

fn assert_near(a: Complex64, b: Complex64, tol: f64) {
    assert!((a - b).norm() < tol, "{} differs from {}", a, b);
}

fn check_unimodular(gens: &[Generator; 4]) {
    let one = Complex64::new(1.0, 0.0);
    let zero = Complex64::new(0.0, 0.0);
    for g in gens.iter() {
        let m = to_mat(&g.matrix);
        assert_near(mat_det(&m), one, 1e-9);
        let mi = to_mat(&inv(&g.matrix));
        let p = mat_prod(&m, &mi);
        assert_near(p[0], one, 1e-9);
        assert_near(p[1], zero, 1e-9);
        assert_near(p[2], zero, 1e-9);
        assert_near(p[3], one, 1e-9);
    }
}

#[test]
fn generators_are_unimodular() {
    let gens = generators(c(2.0, 0.0), c(2.0, 0.0)).unwrap();
    check_unimodular(&gens);
    let gens = generators(c(1.91, 0.05), c(2.0, 0.0)).unwrap();
    check_unimodular(&gens);
}

#[test]
fn generators_xx_are_unimodular() {
    let gens = generators_xx(c(1.9, 0.1), c(2.1, 0.0)).unwrap();
    check_unimodular(&gens);
}

#[test]
fn generators_x_are_unimodular() {
    let gens = generators_x(c(1.95, 0.02)).unwrap();
    check_unimodular(&gens);
}

#[test]
fn generators_satisfy_traces_and_relator() {
    let ta = Complex64::new(1.91, 0.05);
    let tb = Complex64::new(2.0, 0.0);
    let gens = generators(c(ta.re, ta.im), c(tb.re, tb.im)).unwrap();
    let a = to_mat(&gens[0].matrix);
    let b = to_mat(&gens[1].matrix);
    let ai = to_mat(&gens[2].matrix);
    let bi = to_mat(&gens[3].matrix);
    assert_near(mat_trace(&a), ta, 1e-9);
    assert_near(mat_trace(&b), tb, 1e-9);
    let comm = mat_prod(&mat_prod(&a, &b), &mat_prod(&ai, &bi));
    assert_near(mat_trace(&comm), Complex64::new(-2.0, 0.0), 1e-9);
}

#[test]
fn generators_xx_satisfy_traces_and_relator() {
    let ta = Complex64::new(1.9, 0.1);
    let tb = Complex64::new(2.1, 0.0);
    let gens = generators_xx(c(ta.re, ta.im), c(tb.re, tb.im)).unwrap();
    let a = to_mat(&gens[0].matrix);
    let b = to_mat(&gens[1].matrix);
    let bi = to_mat(&gens[3].matrix);
    assert_near(mat_trace(&a), ta, 1e-9);
    assert_near(mat_trace(&b), tb, 1e-9);
    let w = mat_prod(&mat_prod(&a, &b), &mat_prod(&a, &bi));
    assert_near(mat_trace(&w), Complex64::new(-2.0, 0.0), 1e-9);
}

#[test]
fn generators_x_satisfy_traces_and_relator() {
    let ta = Complex64::new(1.95, 0.02);
    let gens = generators_x(c(ta.re, ta.im)).unwrap();
    let a = to_mat(&gens[0].matrix);
    let b = to_mat(&gens[1].matrix);
    let bi = to_mat(&gens[3].matrix);
    assert_near(mat_trace(&a), ta, 1e-9);
    let two = Complex64::new(2.0, 0.0);
    assert_near(mat_trace(&mat_prod(&a, &b)), two, 1e-9);
    assert_near(mat_trace(&mat_prod(&a, &bi)), two, 1e-9);
}

#[test]
fn scheme_dispatch_matches_constructions() {
    let ta = c(2.0, 0.0);
    let tb = c(2.0, 0.0);
    let by_scheme = generators_for_scheme(Scheme::Commutator, ta, tb).unwrap();
    let direct = generators(ta, tb).unwrap();
    for i in 0..4 {
        assert_eq!(by_scheme[i].matrix, direct[i].matrix);
        assert_eq!(by_scheme[i].circle.0, direct[i].circle.0);
    }
    let tx = c(1.95, 0.02);
    let by_scheme = generators_for_scheme(Scheme::XRelator, tx, tb).unwrap();
    let direct = generators_x(tx).unwrap();
    for i in 0..4 {
        assert_eq!(by_scheme[i].matrix, direct[i].matrix);
    }
}

#[test]
fn circle_is_tangent_to_its_conjugate_image() {
    // u is parabolic with a finite fixed point; v = b·u·b⁻¹ for a unimodular
    // b.  The returned circle and its image under b must be tangent.
    let u = [
        Complex64::new(1.0, 0.0),
        Complex64::new(0.0, 0.0),
        Complex64::new(1.0, 0.0),
        Complex64::new(1.0, 0.0),
    ];
    let b = [
        Complex64::new(2.0, 0.0),
        Complex64::new(1.0, 0.0),
        Complex64::new(1.0, 0.0),
        Complex64::new(1.0, 0.0),
    ];
    let b_inv = [b[3], -b[1], -b[2], b[0]];
    let v = mat_prod(&mat_prod(&b, &u), &b_inv);
    let um = from_mat(&u);
    let vm = from_mat(&v);
    let circle = circle_for_transforms(&um, &vm).unwrap();
    let image = mul_circle(&from_mat(&b), &circle);
    let c1 = cc(circle.center());
    let r1 = 1.0 / f64::from_bits(circle.radius_inv());
    let c2 = cc(image.center());
    let r2 = 1.0 / f64::from_bits(image.radius_inv());
    let dist = (c1 - c2).norm();
    let outer = (dist - (r1 + r2)).abs();
    let inner = (dist - (r1 - r2).abs()).abs();
    assert!(
        outer < 1e-6 || inner < 1e-6,
        "not tangent: dist {} radii {} {}",
        dist,
        r1,
        r2
    );
}

#[test]
fn degenerate_transform_is_reported() {
    let id = from_mat(&[
        Complex64::new(1.0, 0.0),
        Complex64::new(0.0, 0.0),
        Complex64::new(0.0, 0.0),
        Complex64::new(1.0, 0.0),
    ]);
    assert_eq!(circle_for_transforms(&id, &id), Err(Error::DegenerateTransform));
}

#[test]
fn singular_parameters_are_reported() {
    // A zero trace makes the half trace zero, a singular divisor.
    assert!(matches!(generators_x(c(0.0, 0.0)), Err(Error::SingularParameters)));
}

#[test]
fn point_count_is_four_plus_two_k() {
    let gens = generators(c(2.0, 0.0), c(2.0, 0.0)).unwrap();
    let pts = generate_points(gens, 100).unwrap();
    assert_eq!(pts.len(), 100);
    let gens = generators(c(2.0, 0.0), c(2.0, 0.0)).unwrap();
    let pts = generate_points(gens, 101).unwrap();
    assert_eq!(pts.len(), 102);
    let gens = generators(c(2.0, 0.0), c(2.0, 0.0)).unwrap();
    let pts = generate_points(gens, 3).unwrap();
    assert_eq!(pts.len(), 4);
    let gens = generators(c(2.0, 0.0), c(2.0, 0.0)).unwrap();
    let pts = generate_points(gens, 0).unwrap();
    assert_eq!(pts.len(), 4);
}

#[test]
fn traversal_never_cancels_a_generator() {
    // The queue starts with next indices 0..3.  Each step must replace the
    // popped item by successors whose indices are everything except the
    // popped index offset by two — the algebraic inverse that would cancel.
    let gens = generators(c(2.0, 0.0), c(2.0, 0.0)).unwrap();
    let mut queue = CircleQueue::new(gens).unwrap();
    let lasts: Vec<u8> = queue.items.iter().map(|it| it.last).collect();
    assert_eq!(lasts, vec![0, 1, 2, 3]);
    for _ in 0..40 {
        // Replicate the scan that selects the popped item.
        let mut best = 0usize;
        for j in 1..queue.items.len() {
            if f64::from_bits(queue.items[best].priority) < f64::from_bits(queue.items[j].priority)
            {
                best = j;
            }
        }
        let popped = queue.items[best].last;
        let n = queue.items.len();
        queue.advance().unwrap();
        assert_eq!(queue.items.len(), n + 2);
        let succ = [queue.items[best].last, queue.items[n].last, queue.items[n + 1].last];
        let forbidden = (popped + 2) % 4;
        let mut seen = vec![];
        for s in succ.iter() {
            assert_ne!(*s, forbidden, "a successor would cancel the last generator");
            seen.push(*s);
        }
        seen.sort();
        let mut expected = vec![(popped + 3) % 4, popped, (popped + 1) % 4];
        expected.sort();
        assert_eq!(seen, expected);
    }
}

#[test]
fn end_to_end_points_land_inside_the_window() {
    let pts = generate_points_from_traces(c(2.0, 0.0), c(2.0, 0.0), 100).unwrap();
    assert_eq!(pts.len(), 100);
    let trans = window_transform(&pts, 200, 200).unwrap();
    assert!(f64::from_bits(trans.scale) > 0.0);
    for pt in pts.iter() {
        let (x, y) = trans.apply(pt);
        assert!(x < 200, "x out of window: {}", x);
        assert!(y < 200, "y out of window: {}", y);
    }
}

#[test]
fn window_transform_rejects_an_empty_point_set() {
    let pts: Vec<Cpx> = vec![];
    assert_eq!(window_transform(&pts, 100, 100), Err(Error::EmptyPointSet));
}

#[test]
fn window_transform_rejects_a_coordinate_that_is_not_a_number() {
    let pts = vec![c(0.0, 0.0), c(f64::NAN, 1.0)];
    assert_eq!(window_transform(&pts, 100, 100), Err(Error::InvalidPriority));
}

#[test]
fn invalid_priority_is_reported_for_unusable_generators() {
    // Generators with coordinates that are not numbers give every frontier
    // item an unusable priority.
    let bad = from_mat(&[
        Complex64::new(f64::NAN, 0.0),
        Complex64::new(0.0, 0.0),
        Complex64::new(0.0, 0.0),
        Complex64::new(f64::NAN, 0.0),
    ]);
    let g = Generator { matrix: bad, circle: kleinian::circle::Circle(bad) };
    let gens = [g, g, g, g];
    assert_eq!(generate_points(gens, 10), Err(Error::InvalidPriority));
}

#[test]
fn window_transform_matches_a_hand_computed_box() {
    // Two points spanning the unit box, a 100 by 100 window.
    let pts = vec![c(0.0, 0.0), c(1.0, 1.0)];
    let trans = window_transform(&pts, 100, 100).unwrap();
    let scale = 100.0f64 / 1.0 * 0.999;
    assert_eq!(f64::from_bits(trans.scale), scale);
    let off = 0.5 * (0.0 + 1.0 - 100.0 / scale);
    assert_eq!(f64::from_bits(trans.xoff), off);
    assert_eq!(f64::from_bits(trans.yoff), off);
    let (x, y) = trans.apply(&c(0.0, 0.0));
    assert_eq!(x, (scale * (0.0 - off)) as usize);
    assert_eq!(y, (scale * (0.0 - off)) as usize);
    let (x, y) = trans.apply(&c(1.0, 1.0));
    assert!(x < 100 && y < 100);
}

#[test]
fn commutator_b_matrix_is_exact_for_trace_two() {
    // With both traces 2 the construction gives tab = 2 - 2i, so
    // b = [[1 - i, 1], [1, 1 + i]] exactly.
    let gens = generators(c(2.0, 0.0), c(2.0, 0.0)).unwrap();
    let b = to_mat(&gens[1].matrix);
    assert_near(b[0], Complex64::new(1.0, -1.0), 1e-12);
    assert_near(b[1], Complex64::new(1.0, 0.0), 1e-12);
    assert_near(b[2], Complex64::new(1.0, 0.0), 1e-12);
    assert_near(b[3], Complex64::new(1.0, 1.0), 1e-12);
}

#[test]
fn from_traces_reports_singular_parameters() {
    // Zero traces drive the divisor of z0 to zero.
    let r = generate_points_from_traces(c(0.0, 0.0), c(0.0, 0.0), 10);
    assert_eq!(r, Err(Error::SingularParameters));
}

#[test]
fn from_traces_rounds_an_odd_request_up() {
    let pts = generate_points_from_traces(c(2.0, 0.0), c(2.0, 0.0), 51).unwrap();
    assert_eq!(pts.len(), 52);
}
