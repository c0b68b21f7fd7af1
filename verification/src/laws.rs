//! The laws of the interpolation operations, proved over the rational model.
//!
//! Each lemma states an endpoint or selection property of the spec functions
//! in [`crate::curve`]; the executable operations are tied to those spec
//! functions by their `ensures`, so the laws carry over to every evaluation.

use vstd::prelude::*;

use crate::curve::cubic_bezier_mirrored_rat;
use crate::curve::cubic_bezier_rat;
use crate::curve::cubic_hermite_rat;
use crate::curve::hermite_m0;
use crate::curve::hermite_m1;
use crate::curve::lerp_rat;
use crate::curve::mirror_rat;
use crate::curve::quadratic_bezier_rat;
use crate::rat::Rat;
use crate::rat::lemma_add_zero_left;
use crate::rat::lemma_add_zero_right;
use crate::rat::lemma_eqv_symm;
use crate::rat::lemma_mul_one_right;
use crate::rat::lemma_mul_zero_left;
use crate::rat::lemma_mul_zero_right;
use crate::rat::lemma_eqv_trans;
use crate::rat::lemma_lt_trans;
use crate::rat::lemma_pos_mul;
use crate::rat::rat_add;
use crate::rat::rat_eqv;
use crate::rat::rat_lt;
use crate::rat::rat_mul;
use crate::rat::rat_one;
use crate::rat::rat_zero;

verus! {

/// `lerp(0, a, b)` is `a`.
pub proof fn lemma_lerp_at_zero(a: Rat, b: Rat) by (nonlinear_arith)
    requires
        a.d > 0,
        b.d > 0,
    ensures
        rat_eqv(lerp_rat(rat_zero(), a, b), a),
{
}

/// `lerp(1, a, b)` is `b`.
pub proof fn lemma_lerp_at_one(a: Rat, b: Rat) by (nonlinear_arith)
    requires
        a.d > 0,
        b.d > 0,
    ensures
        rat_eqv(lerp_rat(rat_one(), a, b), b),
{
}

/// A `lerp` of well-formed rationals is well-formed.
pub proof fn lemma_lerp_wf(t: Rat, a: Rat, b: Rat) by (nonlinear_arith)
    requires
        t.d > 0,
        a.d > 0,
        b.d > 0,
    ensures
        lerp_rat(t, a, b).d > 0,
{
}

/// `quadratic_bezier(0, a, u, b)` is `a`.
pub proof fn lemma_quadratic_bezier_at_zero(a: Rat, u: Rat, b: Rat)
    requires
        a.d > 0,
        u.d > 0,
        b.d > 0,
    ensures
        rat_eqv(quadratic_bezier_rat(rat_zero(), a, u, b), a),
{
    let z = rat_zero();
    let q1 = lerp_rat(z, a, u);
    let q2 = lerp_rat(z, u, b);
    lemma_lerp_wf(z, a, u);
    lemma_lerp_wf(z, u, b);
    lemma_lerp_at_zero(q1, q2);
    lemma_lerp_at_zero(a, u);
    lemma_eqv_trans(lerp_rat(z, q1, q2), q1, a);
}

/// `quadratic_bezier(1, a, u, b)` is `b`.
pub proof fn lemma_quadratic_bezier_at_one(a: Rat, u: Rat, b: Rat)
    requires
        a.d > 0,
        u.d > 0,
        b.d > 0,
    ensures
        rat_eqv(quadratic_bezier_rat(rat_one(), a, u, b), b),
{
    let o = rat_one();
    let q1 = lerp_rat(o, a, u);
    let q2 = lerp_rat(o, u, b);
    lemma_lerp_wf(o, a, u);
    lemma_lerp_wf(o, u, b);
    lemma_lerp_at_one(q1, q2);
    lemma_lerp_at_one(u, b);
    lemma_eqv_trans(lerp_rat(o, q1, q2), q2, b);
}

/// `cubic_bezier(0, a, u, v, b)` is `a`.
pub proof fn lemma_cubic_bezier_at_zero(a: Rat, u: Rat, v: Rat, b: Rat)
    requires
        a.d > 0,
        u.d > 0,
        v.d > 0,
        b.d > 0,
    ensures
        rat_eqv(cubic_bezier_rat(rat_zero(), a, u, v, b), a),
{
    let z = rat_zero();
    let q1 = lerp_rat(z, a, u);
    let q2 = lerp_rat(z, u, v);
    let q3 = lerp_rat(z, v, b);
    let xm = lerp_rat(z, q1, q2);
    let ym = lerp_rat(z, q2, q3);
    lemma_lerp_wf(z, a, u);
    lemma_lerp_wf(z, u, v);
    lemma_lerp_wf(z, v, b);
    lemma_lerp_wf(z, q1, q2);
    lemma_lerp_wf(z, q2, q3);
    lemma_lerp_at_zero(xm, ym);
    lemma_lerp_at_zero(q1, q2);
    lemma_lerp_at_zero(a, u);
    lemma_eqv_trans(lerp_rat(z, xm, ym), xm, q1);
    lemma_eqv_trans(lerp_rat(z, xm, ym), q1, a);
}

/// `cubic_bezier(1, a, u, v, b)` is `b`.
pub proof fn lemma_cubic_bezier_at_one(a: Rat, u: Rat, v: Rat, b: Rat)
    requires
        a.d > 0,
        u.d > 0,
        v.d > 0,
        b.d > 0,
    ensures
        rat_eqv(cubic_bezier_rat(rat_one(), a, u, v, b), b),
{
    let o = rat_one();
    let q1 = lerp_rat(o, a, u);
    let q2 = lerp_rat(o, u, v);
    let q3 = lerp_rat(o, v, b);
    let xm = lerp_rat(o, q1, q2);
    let ym = lerp_rat(o, q2, q3);
    lemma_lerp_wf(o, a, u);
    lemma_lerp_wf(o, u, v);
    lemma_lerp_wf(o, v, b);
    lemma_lerp_wf(o, q1, q2);
    lemma_lerp_wf(o, q2, q3);
    lemma_lerp_at_one(xm, ym);
    lemma_lerp_at_one(q2, q3);
    lemma_lerp_at_one(v, b);
    lemma_eqv_trans(lerp_rat(o, xm, ym), ym, q3);
    lemma_eqv_trans(lerp_rat(o, xm, ym), q3, b);
}

/// `cubic_bezier_mirrored(1, a, u, v, b)` is `b`: reflecting the trailing
/// handle through the end point does not move the end point.
pub proof fn lemma_cubic_bezier_mirrored_at_one(a: Rat, u: Rat, v: Rat, b: Rat)
    requires
        a.d > 0,
        u.d > 0,
        v.d > 0,
        b.d > 0,
    ensures
        rat_eqv(cubic_bezier_mirrored_rat(rat_one(), a, u, v, b), b),
{
    lemma_pos_mul(b.d, v.d);
    lemma_cubic_bezier_at_one(a, u, mirror_rat(b, v), b);
}

/// The tangent `m0` of a Hermite segment with increasing times is
/// well-formed.
pub proof fn lemma_hermite_m0_wf(x: (Rat, Rat), a: (Rat, Rat), b: (Rat, Rat))
    requires
        x.0.d > 0,
        x.1.d > 0,
        a.0.d > 0,
        b.0.d > 0,
        b.1.d > 0,
        rat_lt(x.0, b.0),
    ensures
        hermite_m0(x, a, b).d > 0,
{
    lemma_pos_mul(b.1.d, x.1.d);
    lemma_pos_mul(b.1.d * x.1.d, b.0.n * x.0.d - x.0.n * b.0.d);
    lemma_pos_mul(b.0.d, a.0.d);
    lemma_pos_mul((b.1.d * x.1.d) * (b.0.n * x.0.d - x.0.n * b.0.d), b.0.d * a.0.d);
}

/// The tangent `m1` of a Hermite segment with increasing times is
/// well-formed.
pub proof fn lemma_hermite_m1_wf(a: (Rat, Rat), b: (Rat, Rat), y: (Rat, Rat))
    requires
        a.0.d > 0,
        a.1.d > 0,
        b.0.d > 0,
        y.0.d > 0,
        y.1.d > 0,
        rat_lt(a.0, y.0),
    ensures
        hermite_m1(a, b, y).d > 0,
{
    lemma_pos_mul(y.1.d, a.1.d);
    lemma_pos_mul(y.1.d * a.1.d, y.0.n * a.0.d - a.0.n * y.0.d);
    lemma_pos_mul(b.0.d, a.0.d);
    lemma_pos_mul((y.1.d * a.1.d) * (y.0.n * a.0.d - a.0.n * y.0.d), b.0.d * a.0.d);
}

/// `cubic_hermite` at the start of the segment (`t = 0`, sample `a`'s
/// relative position) returns `a`'s value.
pub proof fn lemma_cubic_hermite_at_zero(x: (Rat, Rat), a: (Rat, Rat), b: (Rat, Rat), y: (Rat, Rat))
    requires
        x.0.d > 0,
        x.1.d > 0,
        a.0.d > 0,
        a.1.d > 0,
        b.0.d > 0,
        b.1.d > 0,
        y.0.d > 0,
        y.1.d > 0,
        rat_lt(x.0, a.0),
        rat_lt(a.0, b.0),
        rat_lt(b.0, y.0),
    ensures
        rat_eqv(cubic_hermite_rat(rat_zero(), x, a, b, y), a.1),
{
    let z = rat_zero();
    lemma_lt_trans(x.0, a.0, b.0);
    lemma_lt_trans(a.0, b.0, y.0);
    lemma_hermite_m0_wf(x, a, b);
    lemma_hermite_m1_wf(a, b, y);
    let m0 = hermite_m0(x, a, b);
    let m1 = hermite_m1(a, b, y);
    let t1 = rat_mul(a.1, crate::curve::hermite_h00(z));
    let t2 = rat_mul(m0, crate::curve::hermite_h10(z));
    let t3 = rat_mul(b.1, crate::curve::hermite_h01(z));
    let t4 = rat_mul(m1, crate::curve::hermite_h11(z));
    let first = rat_add(t1, t2);
    let second = rat_add(t3, t4);
    assert(crate::curve::hermite_h00(z).n == 1 && crate::curve::hermite_h00(z).d == 1);
    assert(crate::curve::hermite_h10(z).n == 0 && crate::curve::hermite_h10(z).d == 1);
    assert(crate::curve::hermite_h01(z).n == 0 && crate::curve::hermite_h01(z).d == 1);
    assert(crate::curve::hermite_h11(z).n == 0 && crate::curve::hermite_h11(z).d == 1);
    lemma_mul_one_right(a.1.n, crate::curve::hermite_h00(z).n);
    lemma_mul_one_right(a.1.d, crate::curve::hermite_h00(z).d);
    lemma_mul_zero_right(m0.n, crate::curve::hermite_h10(z).n);
    lemma_mul_one_right(m0.d, crate::curve::hermite_h10(z).d);
    lemma_mul_zero_right(b.1.n, crate::curve::hermite_h01(z).n);
    lemma_mul_one_right(b.1.d, crate::curve::hermite_h01(z).d);
    lemma_mul_zero_right(m1.n, crate::curve::hermite_h11(z).n);
    lemma_mul_one_right(m1.d, crate::curve::hermite_h11(z).d);
    lemma_mul_zero_left(t3.n, t4.d);
    lemma_mul_zero_left(t4.n, t3.d);
    lemma_pos_mul(t1.d, t2.d);
    lemma_pos_mul(t3.d, t4.d);
    lemma_add_zero_right(t1, t2);
    lemma_add_zero_right(first, second);
    assert(t1 == a.1);
    lemma_eqv_trans(cubic_hermite_rat(z, x, a, b, y), first, a.1);
}

/// `cubic_hermite` at the end of the segment (`t = 1`, sample `b`'s
/// relative position) returns `b`'s value.
pub proof fn lemma_cubic_hermite_at_one(x: (Rat, Rat), a: (Rat, Rat), b: (Rat, Rat), y: (Rat, Rat))
    requires
        x.0.d > 0,
        x.1.d > 0,
        a.0.d > 0,
        a.1.d > 0,
        b.0.d > 0,
        b.1.d > 0,
        y.0.d > 0,
        y.1.d > 0,
        rat_lt(x.0, a.0),
        rat_lt(a.0, b.0),
        rat_lt(b.0, y.0),
    ensures
        rat_eqv(cubic_hermite_rat(rat_one(), x, a, b, y), b.1),
{
    let o = rat_one();
    lemma_lt_trans(x.0, a.0, b.0);
    lemma_lt_trans(a.0, b.0, y.0);
    lemma_hermite_m0_wf(x, a, b);
    lemma_hermite_m1_wf(a, b, y);
    let m0 = hermite_m0(x, a, b);
    let m1 = hermite_m1(a, b, y);
    let t1 = rat_mul(a.1, crate::curve::hermite_h00(o));
    let t2 = rat_mul(m0, crate::curve::hermite_h10(o));
    let t3 = rat_mul(b.1, crate::curve::hermite_h01(o));
    let t4 = rat_mul(m1, crate::curve::hermite_h11(o));
    let first = rat_add(t1, t2);
    let second = rat_add(t3, t4);
    assert(crate::curve::hermite_h00(o).n == 0 && crate::curve::hermite_h00(o).d == 1);
    assert(crate::curve::hermite_h10(o).n == 0 && crate::curve::hermite_h10(o).d == 1);
    assert(crate::curve::hermite_h01(o).n == 1 && crate::curve::hermite_h01(o).d == 1);
    assert(crate::curve::hermite_h11(o).n == 0 && crate::curve::hermite_h11(o).d == 1);
    lemma_mul_zero_right(a.1.n, crate::curve::hermite_h00(o).n);
    lemma_mul_one_right(a.1.d, crate::curve::hermite_h00(o).d);
    lemma_mul_zero_right(m0.n, crate::curve::hermite_h10(o).n);
    lemma_mul_one_right(m0.d, crate::curve::hermite_h10(o).d);
    lemma_mul_one_right(b.1.n, crate::curve::hermite_h01(o).n);
    lemma_mul_one_right(b.1.d, crate::curve::hermite_h01(o).d);
    lemma_mul_zero_right(m1.n, crate::curve::hermite_h11(o).n);
    lemma_mul_one_right(m1.d, crate::curve::hermite_h11(o).d);
    lemma_mul_zero_left(t1.n, t2.d);
    lemma_mul_zero_left(t2.n, t1.d);
    lemma_pos_mul(t1.d, t2.d);
    lemma_pos_mul(t3.d, t4.d);
    lemma_add_zero_right(t3, t4);
    lemma_add_zero_left(first, second);
    assert(t3 == b.1);
    lemma_eqv_trans(cubic_hermite_rat(o, x, a, b, y), second, b.1);
}

/// Determinism of the operation surface: the contracts pin every result down
/// to a unique rational, so any two results of one operation on the same
/// inputs denote the same number.
pub proof fn lemma_value_determined(r1: Rat, r2: Rat, s: Rat)
    requires
        s.d > 0,
        rat_eqv(r1, s),
        rat_eqv(r2, s),
    ensures
        rat_eqv(r1, r2),
{
    lemma_eqv_symm(r2, s);
    lemma_eqv_trans(r1, s, r2);
}

} // verus!
