use splines::scalar::Scalar;
use splines::vector::Vector;

/// The result denotes the rational `n / d` (cross-multiplied equality).
fn same_value(r: &Scalar, n: i128, d: i128) -> bool {
    r.num * d == n * r.den
}

fn vec3(a: i128, b: i128, c: i128) -> Vector {
    Vector::new(vec![Scalar::new(a, 1), Scalar::new(b, 1), Scalar::new(c, 1)])
}

#[test]
fn step_selects_scalar() {
    let a = Scalar::new(3, 1);
    let b = Scalar::new(9, 1);
    let threshold = Scalar::new(1, 2);
    let before = Scalar::step(&Scalar::new(3, 10), &threshold, &a, &b);
    assert!(same_value(&before, 3, 1));
    let after = Scalar::step(&Scalar::new(7, 10), &threshold, &a, &b);
    assert!(same_value(&after, 9, 1));
}

#[test]
fn step_boundary_returns_b() {
    let a = Scalar::new(3, 1);
    let b = Scalar::new(9, 1);
    let threshold = Scalar::new(1, 2);
    let at = Scalar::step(&Scalar::new(1, 2), &threshold, &a, &b);
    assert!(same_value(&at, 9, 1));
    // An equal rational written over another denominator selects b too.
    let at2 = Scalar::step(&Scalar::new(2, 4), &threshold, &a, &b);
    assert!(same_value(&at2, 9, 1));
}

#[test]
fn lerp_endpoints_scalar() {
    let a = Scalar::new(3, 2);
    let b = Scalar::new(7, 4);
    let at_zero = Scalar::lerp(&Scalar::new(0, 1), &a, &b);
    assert!(same_value(&at_zero, 3, 2));
    let at_one = Scalar::lerp(&Scalar::new(1, 1), &a, &b);
    assert!(same_value(&at_one, 7, 4));
}

#[test]
fn lerp_midpoint_vector_scenario() {
    // a = (0,0,0), b = (10,0,0): the halfway blend is (5,0,0).
    let a = vec3(0, 0, 0);
    let b = vec3(10, 0, 0);
    let mid = Vector::lerp(&Scalar::new(1, 2), &a, &b);
    assert!(same_value(&mid.c[0], 5, 1));
    assert!(same_value(&mid.c[1], 0, 1));
    assert!(same_value(&mid.c[2], 0, 1));
}

#[test]
fn step_vector_scenario() {
    let a = vec3(0, 0, 0);
    let b = vec3(10, 0, 0);
    let threshold = Scalar::new(1, 2);
    let before = Vector::step(&Scalar::new(3, 10), &threshold, &a, &b);
    assert!(same_value(&before.c[0], 0, 1));
    let after = Vector::step(&Scalar::new(7, 10), &threshold, &a, &b);
    assert!(same_value(&after.c[0], 10, 1));
}

#[test]
fn quadratic_bezier_endpoints() {
    let a = Scalar::new(1, 1);
    let u = Scalar::new(50, 1);
    let b = Scalar::new(9, 1);
    let at_zero = Scalar::quadratic_bezier(&Scalar::new(0, 1), &a, &u, &b);
    assert!(same_value(&at_zero, 1, 1));
    let at_one = Scalar::quadratic_bezier(&Scalar::new(1, 1), &a, &u, &b);
    assert!(same_value(&at_one, 9, 1));
}

#[test]
fn quadratic_bezier_midpoint_value() {
    // B(1/2) = (a + 2u + b) / 4 = (0 + 8 + 8) / 4 = 4.
    let a = Scalar::new(0, 1);
    let u = Scalar::new(4, 1);
    let b = Scalar::new(8, 1);
    let mid = Scalar::quadratic_bezier(&Scalar::new(1, 2), &a, &u, &b);
    assert!(same_value(&mid, 4, 1));
}

#[test]
fn cubic_bezier_endpoints() {
    let a = Scalar::new(2, 1);
    let u = Scalar::new(60, 1);
    let v = Scalar::new(-60, 1);
    let b = Scalar::new(11, 1);
    let at_zero = Scalar::cubic_bezier(&Scalar::new(0, 1), &a, &u, &v, &b);
    assert!(same_value(&at_zero, 2, 1));
    let at_one = Scalar::cubic_bezier(&Scalar::new(1, 1), &a, &u, &v, &b);
    assert!(same_value(&at_one, 11, 1));
}

#[test]
fn cubic_bezier_midpoint_value() {
    // B(1/2) = (a + 3u + 3v + b) / 8 = (0 + 24 + 48 + 24) / 8 = 12.
    let a = Scalar::new(0, 1);
    let u = Scalar::new(8, 1);
    let v = Scalar::new(16, 1);
    let b = Scalar::new(24, 1);
    let mid = Scalar::cubic_bezier(&Scalar::new(1, 2), &a, &u, &v, &b);
    assert!(same_value(&mid, 12, 1));
}

#[test]
fn cubic_bezier_mirrored_ends_at_b() {
    let a = Scalar::new(0, 1);
    let u = Scalar::new(13, 2);
    let v = Scalar::new(-5, 3);
    let b = Scalar::new(21, 4);
    let at_one = Scalar::cubic_bezier_mirrored(&Scalar::new(1, 1), &a, &u, &v, &b);
    assert!(same_value(&at_one, 21, 4));
}

#[test]
fn cubic_bezier_mirrored_reflects_handle() {
    // With v = 0 and b = 8 the reflected handle is 16, so
    // B(1/2) = (0 + 0 + 48 + 8) / 8 = 7, not the 1 of the unmirrored curve.
    let a = Scalar::new(0, 1);
    let u = Scalar::new(0, 1);
    let v = Scalar::new(0, 1);
    let b = Scalar::new(8, 1);
    let mirrored = Scalar::cubic_bezier_mirrored(&Scalar::new(1, 2), &a, &u, &v, &b);
    assert!(same_value(&mirrored, 7, 1));
    let plain = Scalar::cubic_bezier(&Scalar::new(1, 2), &a, &u, &v, &b);
    assert!(same_value(&plain, 1, 1));
}

#[test]
fn cubic_hermite_endpoints() {
    let x = (Scalar::new(0, 1), Scalar::new(1, 1));
    let a = (Scalar::new(1, 1), Scalar::new(2, 1));
    let b = (Scalar::new(2, 1), Scalar::new(5, 1));
    let y = (Scalar::new(3, 1), Scalar::new(6, 1));
    let at_zero = Scalar::cubic_hermite(&Scalar::new(0, 1), x, a, b, y);
    assert!(same_value(&at_zero, 2, 1));
    let at_one = Scalar::cubic_hermite(&Scalar::new(1, 1), x, a, b, y);
    assert!(same_value(&at_one, 5, 1));
}

#[test]
fn cubic_hermite_midpoint_value() {
    // Tangents: m0 = (5 - 1) / 2 * 1 = 2, m1 = (6 - 2) / 2 * 1 = 2.
    // At t = 1/2: 2 * 1/2 + 2 * 1/8 + 5 * 1/2 + 2 * (-1/8) = 7/2.
    let x = (Scalar::new(0, 1), Scalar::new(1, 1));
    let a = (Scalar::new(1, 1), Scalar::new(2, 1));
    let b = (Scalar::new(2, 1), Scalar::new(5, 1));
    let y = (Scalar::new(3, 1), Scalar::new(6, 1));
    let mid = Scalar::cubic_hermite(&Scalar::new(1, 2), x, a, b, y);
    assert!(same_value(&mid, 7, 2));
}

#[test]
fn cubic_hermite_vector_endpoints() {
    let t0 = Scalar::new(0, 1);
    let t1 = Scalar::new(1, 1);
    let t2 = Scalar::new(2, 1);
    let t3 = Scalar::new(3, 1);
    let vx = vec3(0, 1, 2);
    let va = vec3(1, 3, 5);
    let vb = vec3(4, 6, 8);
    let vy = vec3(5, 7, 9);
    let at_zero = Vector::cubic_hermite(
        &Scalar::new(0, 1),
        (t0, vx.copied()),
        (t1, va.copied()),
        (t2, vb.copied()),
        (t3, vy.copied()),
    );
    assert!(same_value(&at_zero.c[0], 1, 1));
    assert!(same_value(&at_zero.c[1], 3, 1));
    assert!(same_value(&at_zero.c[2], 5, 1));
    let at_one = Vector::cubic_hermite(&Scalar::new(1, 1), (t0, vx), (t1, va), (t2, vb), (t3, vy));
    assert!(same_value(&at_one.c[0], 4, 1));
    assert!(same_value(&at_one.c[1], 6, 1));
    assert!(same_value(&at_one.c[2], 8, 1));
}

#[test]
fn quadratic_bezier_vector_endpoints() {
    let a = vec3(1, 2, 3);
    let u = vec3(40, -40, 0);
    let b = vec3(7, 8, 9);
    let at_zero = Vector::quadratic_bezier(&Scalar::new(0, 1), &a, &u, &b);
    assert!(same_value(&at_zero.c[0], 1, 1));
    assert!(same_value(&at_zero.c[1], 2, 1));
    assert!(same_value(&at_zero.c[2], 3, 1));
    let at_one = Vector::quadratic_bezier(&Scalar::new(1, 1), &a, &u, &b);
    assert!(same_value(&at_one.c[0], 7, 1));
    assert!(same_value(&at_one.c[1], 8, 1));
    assert!(same_value(&at_one.c[2], 9, 1));
}

#[test]
fn cubic_bezier_vector_midpoint() {
    // Per coordinate: B(1/2) = (a + 3u + 3v + b) / 8.
    let a = vec3(0, 8, 0);
    let u = vec3(8, 8, 0);
    let v = vec3(16, 8, 8);
    let b = vec3(24, 8, 0);
    let mid = Vector::cubic_bezier(&Scalar::new(1, 2), &a, &u, &v, &b);
    assert!(same_value(&mid.c[0], 12, 1));
    assert!(same_value(&mid.c[1], 8, 1));
    assert!(same_value(&mid.c[2], 3, 1));
}

#[test]
fn cubic_bezier_mirrored_vector_ends_at_b() {
    let a = vec3(0, 1, 2);
    let u = vec3(5, 5, 5);
    let v = vec3(-3, 0, 3);
    let b = vec3(10, 20, 30);
    let at_one = Vector::cubic_bezier_mirrored(&Scalar::new(1, 1), &a, &u, &v, &b);
    assert!(same_value(&at_one.c[0], 10, 1));
    assert!(same_value(&at_one.c[1], 20, 1));
    assert!(same_value(&at_one.c[2], 30, 1));
}

#[test]
fn identical_inputs_give_identical_results() {
    let t = Scalar::new(5, 13);
    let a = Scalar::new(-7, 3);
    let b = Scalar::new(11, 6);
    let u = Scalar::new(2, 5);
    let first = Scalar::lerp(&t, &a, &b);
    let second = Scalar::lerp(&t, &a, &b);
    assert_eq!(first.num, second.num);
    assert_eq!(first.den, second.den);
    let c1 = Scalar::cubic_bezier(&t, &a, &u, &b, &u);
    let c2 = Scalar::cubic_bezier(&t, &a, &u, &b, &u);
    assert_eq!(c1.num, c2.num);
    assert_eq!(c1.den, c2.den);
}

#[test]
fn lerp_extrapolates_outside_unit_interval() {
    // lerp is affine for any t: at t = 2, a + (b - a) * 2 = 2b - a.
    let a = Scalar::new(1, 1);
    let b = Scalar::new(4, 1);
    let beyond = Scalar::lerp(&Scalar::new(2, 1), &a, &b);
    assert!(same_value(&beyond, 7, 1));
    let before = Scalar::lerp(&Scalar::new(-1, 1), &a, &b);
    assert!(same_value(&before, -2, 1));
}
