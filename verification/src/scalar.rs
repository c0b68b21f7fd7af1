//! The scalar realization: exact rational values in 128-bit integers.
//!
//! A [`Scalar`] holds an unreduced rational. The interpolation operations
//! never round: each result is the exact rational given by the corresponding
//! spec function in [`crate::curve`]. Because intermediate products are kept
//! unreduced, inputs are confined to numerators and denominators within
//! [`LIMIT`]; that bound is what makes every intermediate 128-bit product
//! provably free of overflow, even in the deepest formula (the mirrored
//! cubic Bezier).

use vstd::prelude::*;

use crate::curve::cubic_bezier_mirrored_rat;
use crate::curve::cubic_bezier_rat;
use crate::curve::cubic_hermite_rat;
use crate::curve::hermite_h00;
use crate::curve::hermite_h01;
use crate::curve::hermite_h10;
use crate::curve::hermite_h11;
use crate::curve::hermite_m0;
use crate::curve::hermite_m1;
use crate::curve::lerp_rat;
use crate::curve::mirror_rat;
use crate::curve::quadratic_bezier_rat;
use crate::curve::step_rat;
use crate::rat::Rat;
use crate::rat::den_within;
use crate::rat::lemma_add_common;
use crate::rat::lemma_add_cong;
use crate::rat::lemma_eqv_symm;
use crate::rat::lemma_eqv_trans;
use crate::rat::lemma_lt_trans;
use crate::rat::lemma_mul_bound;
use crate::rat::lemma_pos_mul;
use crate::rat::num_within;
use crate::rat::rat_add;
use crate::rat::rat_eqv;
use crate::rat::rat_lt;
use crate::rat::rat_mul;

verus! {

/// Largest magnitude allowed for the numerator and the denominator of an
/// operation input.
pub const LIMIT: i128 = 64;

/// The input bound as a mathematical integer.
pub open spec fn lim() -> int {
    LIMIT as int
}

/// The largest value an `i128` holds.
pub open spec fn maxi() -> int {
    0x7fff_ffff_ffff_ffff_ffff_ffff_ffff_ffff
}

/// An exact rational scalar: `num / den`, with `den` strictly positive.
#[derive(Clone, Copy)]
pub struct Scalar {
    pub num: i128,
    pub den: i128,
}

impl View for Scalar {
    type V = Rat;

    open spec fn view(&self) -> Rat {
        Rat { n: self.num as int, d: self.den as int }
    }
}

impl Scalar {
    /// The denominator is strictly positive.
    pub open spec fn wf(&self) -> bool {
        self@.d > 0
    }

    /// The value is well-formed and within the input bound of the operations.
    pub open spec fn in_limit(&self) -> bool {
        num_within(self@, lim()) && den_within(self@, lim())
    }

    /// Builds the rational `num / den`.
    pub fn new(num: i128, den: i128) -> (r: Scalar)
        requires
            -LIMIT <= num <= LIMIT,
            0 < den <= LIMIT,
        ensures
            r@ == (Rat { n: num as int, d: den as int }),
            r.in_limit(),
    {
        Scalar { num, den }
    }

    /// Exact strict comparison of two rationals.
    pub fn lt(&self, other: &Scalar) -> (r: bool)
        requires
            self.in_limit(),
            other.in_limit(),
        ensures
            r == rat_lt(self@, other@),
    {
        proof {
            lemma_mul_bound(self.num as int, other.den as int, lim(), lim());
            lemma_mul_bound(other.num as int, self.den as int, lim(), lim());
        }
        let lhs: i128 = self.num * other.den;
        let rhs: i128 = other.num * self.den;
        lhs < rhs
    }

    /// Pure selection: `a` while `t` is strictly below the threshold, `b`
    /// from the threshold onwards.
    pub fn step(t: &Scalar, threshold: &Scalar, a: &Scalar, b: &Scalar) -> (r: Scalar)
        requires
            t.in_limit(),
            threshold.in_limit(),
        ensures
            r@ == step_rat(t@, threshold@, a@, b@),
    {
        if t.lt(threshold) {
            *a
        } else {
            *b
        }
    }

    /// The canonical mix `a + (b - a) * t`, exact.
    pub fn lerp(t: &Scalar, a: &Scalar, b: &Scalar) -> (r: Scalar)
        requires
            t.in_limit(),
            a.in_limit(),
            b.in_limit(),
        ensures
            r.wf(),
            r@ == lerp_rat(t@, a@, b@),
    {
        lerp_bounded(t, a, b, Ghost(lim()), Ghost(lim()), Ghost(lim()), Ghost(lim()))
    }

    /// De Casteljau evaluation of the quadratic Bezier curve with control
    /// points `a`, `u`, `b`, exact.
    pub fn quadratic_bezier(t: &Scalar, a: &Scalar, u: &Scalar, b: &Scalar) -> (r: Scalar)
        requires
            t.in_limit(),
            a.in_limit(),
            u.in_limit(),
            b.in_limit(),
        ensures
            r.wf(),
            r@ == quadratic_bezier_rat(t@, a@, u@, b@),
    {
        let q1 = lerp_bounded(t, a, u, Ghost(lim()), Ghost(lim()), Ghost(lim()), Ghost(lim()));
        let q2 = lerp_bounded(t, u, b, Ghost(lim()), Ghost(lim()), Ghost(lim()), Ghost(lim()));
        lerp_bounded(
            t,
            &q1,
            &q2,
            Ghost(786432int),
            Ghost(262144int),
            Ghost(786432int),
            Ghost(262144int),
        )
    }

    /// De Casteljau evaluation of the cubic Bezier curve with control points
    /// `a`, `u`, `v`, `b`, exact.
    pub fn cubic_bezier(t: &Scalar, a: &Scalar, u: &Scalar, v: &Scalar, b: &Scalar) -> (r: Scalar)
        requires
            t.in_limit(),
            a.in_limit(),
            u.in_limit(),
            v.in_limit(),
            b.in_limit(),
        ensures
            r.wf(),
            r@ == cubic_bezier_rat(t@, a@, u@, v@, b@),
    {
        let q1 = lerp_bounded(t, a, u, Ghost(lim()), Ghost(lim()), Ghost(lim()), Ghost(lim()));
        let q2 = lerp_bounded(t, u, v, Ghost(lim()), Ghost(lim()), Ghost(lim()), Ghost(lim()));
        let q3 = lerp_bounded(t, v, b, Ghost(lim()), Ghost(lim()), Ghost(lim()), Ghost(lim()));
        let xm = lerp_bounded(
            t,
            &q1,
            &q2,
            Ghost(786432int),
            Ghost(262144int),
            Ghost(786432int),
            Ghost(262144int),
        );
        let ym = lerp_bounded(
            t,
            &q2,
            &q3,
            Ghost(786432int),
            Ghost(262144int),
            Ghost(786432int),
            Ghost(262144int),
        );
        lerp_bounded(
            t,
            &xm,
            &ym,
            Ghost(39582418599936int),
            Ghost(4398046511104int),
            Ghost(39582418599936int),
            Ghost(4398046511104int),
        )
    }

    /// Cubic Bezier whose trailing handle is the reflection of `v` through
    /// the end point `b`, exact.
    pub fn cubic_bezier_mirrored(
        t: &Scalar,
        a: &Scalar,
        u: &Scalar,
        v: &Scalar,
        b: &Scalar,
    ) -> (r: Scalar)
        requires
            t.in_limit(),
            a.in_limit(),
            u.in_limit(),
            v.in_limit(),
            b.in_limit(),
        ensures
            r.wf(),
            r@ == cubic_bezier_mirrored_rat(t@, a@, u@, v@, b@),
    {
        let vm = mirror(b, v);
        let q1 = lerp_bounded(t, a, u, Ghost(lim()), Ghost(lim()), Ghost(lim()), Ghost(lim()));
        let q2 = lerp_bounded(t, u, &vm, Ghost(lim()), Ghost(lim()), Ghost(12288int), Ghost(4096int));
        let q3 = lerp_bounded(t, &vm, b, Ghost(12288int), Ghost(4096int), Ghost(lim()), Ghost(lim()));
        let xm = lerp_bounded(
            t,
            &q1,
            &q2,
            Ghost(786432int),
            Ghost(262144int),
            Ghost(83886080int),
            Ghost(16777216int),
        );
        let ym = lerp_bounded(
            t,
            &q2,
            &q3,
            Ghost(83886080int),
            Ghost(16777216int),
            Ghost(117440512int),
            Ghost(16777216int),
        );
        lerp_bounded(
            t,
            &xm,
            &ym,
            Ghost(3096224743817216int),
            Ghost(281474976710656int),
            Ghost(306244774661193728int),
            Ghost(18014398509481984int),
        )
    }
}

impl Scalar {
    /// Evaluates the Hermite spline segment between samples `a` and `b`,
    /// with the surrounding samples `x` and `y` supplying the endpoint
    /// tangents (finite differences scaled by the local time span). Each
    /// sample is a `(time, value)` pair, and the sample times must be
    /// strictly increasing; the result is the exact rational of the
    /// standard-basis formula.
    pub fn cubic_hermite(
        t: &Scalar,
        x: (Scalar, Scalar),
        a: (Scalar, Scalar),
        b: (Scalar, Scalar),
        y: (Scalar, Scalar),
    ) -> (r: Scalar)
        requires
            t.in_limit(),
            x.0.in_limit(),
            x.1.in_limit(),
            a.0.in_limit(),
            a.1.in_limit(),
            b.0.in_limit(),
            b.1.in_limit(),
            y.0.in_limit(),
            y.1.in_limit(),
            rat_lt(x.0@, a.0@),
            rat_lt(a.0@, b.0@),
            rat_lt(b.0@, y.0@),
        ensures
            r.wf(),
            rat_eqv(r@, cubic_hermite_rat(t@, (x.0@, x.1@), (a.0@, a.1@), (b.0@, b.1@), (y.0@, y.1@))),
    {
        let tn: i128 = t.num;
        let td: i128 = t.den;
        // The four basis numerators over the shared denominator t.den^3.
        let c2n: i128 = 2 * tn;
        let c3n: i128 = 3 * tn;
        proof {
            lemma_mul_bound(c2n as int, tn as int, 128, 64);
            lemma_mul_bound(c3n as int, tn as int, 192, 64);
            lemma_mul_bound(tn as int, tn as int, 64, 64);
            lemma_mul_bound(tn as int, td as int, 64, 64);
            lemma_mul_bound(td as int, td as int, 64, 64);
            lemma_pos_mul(td as int, td as int);
        }
        let c2nn: i128 = c2n * tn;
        let c3nn: i128 = c3n * tn;
        let tnn: i128 = tn * tn;
        let tntd: i128 = tn * td;
        let tdd: i128 = td * td;
        proof {
            lemma_mul_bound(c2nn as int, tn as int, 8192, 64);
            lemma_mul_bound(c2nn as int, td as int, 8192, 64);
            lemma_mul_bound(c3nn as int, td as int, 12288, 64);
            lemma_mul_bound(tnn as int, tn as int, 4096, 64);
            lemma_mul_bound(tnn as int, td as int, 4096, 64);
            lemma_mul_bound(tntd as int, td as int, 4096, 64);
            lemma_mul_bound(tdd as int, td as int, 4096, 64);
            lemma_pos_mul(tdd as int, td as int);
        }
        let h2nnn: i128 = c2nn * tn;
        let h3nnd: i128 = c3nn * td;
        let tnnn: i128 = tnn * tn;
        let tnntd: i128 = tnn * td;
        let c2nntd: i128 = c2nn * td;
        let tntdtd: i128 = tntd * td;
        let d3: i128 = tdd * td;
        let h00n: i128 = h2nnn - h3nnd + d3;
        let h10n: i128 = tnnn - c2nntd + tntdtd;
        let h01n: i128 = h3nnd - h2nnn;
        let h11n: i128 = tnnn - tnntd;
        // Time spans of the strictly increasing samples; each has a
        // positive numerator.
        proof {
            lemma_lt_trans(x.0@, a.0@, b.0@);
            lemma_lt_trans(a.0@, b.0@, y.0@);
            lemma_mul_bound(b.0.num as int, x.0.den as int, 64, 64);
            lemma_mul_bound(x.0.num as int, b.0.den as int, 64, 64);
            lemma_mul_bound(b.0.den as int, x.0.den as int, 64, 64);
            lemma_mul_bound(b.0.num as int, a.0.den as int, 64, 64);
            lemma_mul_bound(a.0.num as int, b.0.den as int, 64, 64);
            lemma_mul_bound(b.0.den as int, a.0.den as int, 64, 64);
            lemma_mul_bound(y.0.num as int, a.0.den as int, 64, 64);
            lemma_mul_bound(a.0.num as int, y.0.den as int, 64, 64);
            lemma_mul_bound(y.0.den as int, a.0.den as int, 64, 64);
            lemma_pos_mul(b.0.den as int, x.0.den as int);
            lemma_pos_mul(b.0.den as int, a.0.den as int);
            lemma_pos_mul(y.0.den as int, a.0.den as int);
        }
        let pbx: i128 = b.0.num * x.0.den - x.0.num * b.0.den;
        let qbx: i128 = b.0.den * x.0.den;
        let pba: i128 = b.0.num * a.0.den - a.0.num * b.0.den;
        let qba: i128 = b.0.den * a.0.den;
        let pya: i128 = y.0.num * a.0.den - a.0.num * y.0.den;
        let qya: i128 = y.0.den * a.0.den;
        // The tangents m0 and m1 as exact rationals.
        proof {
            lemma_mul_bound(b.1.num as int, x.1.den as int, 64, 64);
            lemma_mul_bound(x.1.num as int, b.1.den as int, 64, 64);
            lemma_mul_bound(b.1.den as int, x.1.den as int, 64, 64);
            lemma_mul_bound(y.1.num as int, a.1.den as int, 64, 64);
            lemma_mul_bound(a.1.num as int, y.1.den as int, 64, 64);
            lemma_mul_bound(y.1.den as int, a.1.den as int, 64, 64);
            lemma_pos_mul(b.1.den as int, x.1.den as int);
            lemma_pos_mul(y.1.den as int, a.1.den as int);
        }
        let s0n: i128 = b.1.num * x.1.den - x.1.num * b.1.den;
        let s0d: i128 = b.1.den * x.1.den;
        let s1n: i128 = y.1.num * a.1.den - a.1.num * y.1.den;
        let s1d: i128 = y.1.den * a.1.den;
        proof {
            lemma_mul_bound(s0n as int, qbx as int, 8192, 4096);
            lemma_mul_bound(s0d as int, pbx as int, 4096, 8192);
            lemma_mul_bound(s1n as int, qya as int, 8192, 4096);
            lemma_mul_bound(s1d as int, pya as int, 4096, 8192);
            lemma_pos_mul(s0d as int, pbx as int);
            lemma_pos_mul(s1d as int, pya as int);
        }
        let m0na: i128 = s0n * qbx;
        let m0da: i128 = s0d * pbx;
        let m1na: i128 = s1n * qya;
        let m1da: i128 = s1d * pya;
        proof {
            lemma_mul_bound(m0na as int, pba as int, 33554432, 8192);
            lemma_mul_bound(m0da as int, qba as int, 33554432, 4096);
            lemma_mul_bound(m1na as int, pba as int, 33554432, 8192);
            lemma_mul_bound(m1da as int, qba as int, 33554432, 4096);
            lemma_pos_mul(m0da as int, qba as int);
            lemma_pos_mul(m1da as int, qba as int);
        }
        let m0n: i128 = m0na * pba;
        let m0d: i128 = m0da * qba;
        let m1n: i128 = m1na * pba;
        let m1d: i128 = m1da * qba;
        // The four weighted terms of the Hermite formula.
        proof {
            lemma_mul_bound(a.1.num as int, h00n as int, 64, 1572864);
            lemma_mul_bound(a.1.den as int, d3 as int, 64, 262144);
            lemma_mul_bound(m0n as int, h10n as int, 274877906944, 1048576);
            lemma_mul_bound(m0d as int, d3 as int, 137438953472, 262144);
            lemma_mul_bound(b.1.num as int, h01n as int, 64, 1310720);
            lemma_mul_bound(b.1.den as int, d3 as int, 64, 262144);
            lemma_mul_bound(m1n as int, h11n as int, 274877906944, 524288);
            lemma_mul_bound(m1d as int, d3 as int, 137438953472, 262144);
            lemma_pos_mul(a.1.den as int, d3 as int);
            lemma_pos_mul(m0d as int, d3 as int);
            lemma_pos_mul(b.1.den as int, d3 as int);
            lemma_pos_mul(m1d as int, d3 as int);
        }
        let t1n: i128 = a.1.num * h00n;
        let t1d: i128 = a.1.den * d3;
        let t2n: i128 = m0n * h10n;
        let t2d: i128 = m0d * d3;
        let t3n: i128 = b.1.num * h01n;
        let t3d: i128 = b.1.den * d3;
        let t4n: i128 = m1n * h11n;
        let t4d: i128 = m1d * d3;
        // Pairwise sums over shared denominators, then the total.
        proof {
            lemma_mul_bound(t1n as int, m0d as int, 100663296, 137438953472);
            lemma_mul_bound(t2n as int, a.1.den as int, 288230376151711744, 64);
            lemma_mul_bound(t1d as int, m0d as int, 16777216, 137438953472);
            lemma_mul_bound(t3n as int, m1d as int, 83886080, 137438953472);
            lemma_mul_bound(t4n as int, b.1.den as int, 144115188075855872, 64);
            lemma_mul_bound(t3d as int, m1d as int, 16777216, 137438953472);
            lemma_mul_bound(b.1.den as int, m1d as int, 64, 137438953472);
            lemma_mul_bound(a.1.den as int, m0d as int, 64, 137438953472);
            lemma_pos_mul(t1d as int, m0d as int);
            lemma_pos_mul(t3d as int, m1d as int);
            lemma_pos_mul(b.1.den as int, m1d as int);
            lemma_pos_mul(a.1.den as int, m0d as int);
        }
        let n12a: i128 = t1n * m0d;
        let n12b: i128 = t2n * a.1.den;
        let n12: i128 = n12a + n12b;
        let d12: i128 = t1d * m0d;
        let n34a: i128 = t3n * m1d;
        let n34b: i128 = t4n * b.1.den;
        let n34: i128 = n34a + n34b;
        let d34: i128 = t3d * m1d;
        let c12: i128 = b.1.den * m1d;
        let c34: i128 = a.1.den * m0d;
        proof {
            lemma_mul_bound(n12 as int, c12 as int, 32281802128991715328, 8796093022208);
            lemma_mul_bound(n34 as int, c34 as int, 20752587082923245568, 8796093022208);
            lemma_mul_bound(d12 as int, c12 as int, 2305843009213693952, 8796093022208);
            lemma_pos_mul(d12 as int, c12 as int);
        }
        let nfina: i128 = n12 * c12;
        let nfinb: i128 = n34 * c34;
        let nfin: i128 = nfina + nfinb;
        let dfin: i128 = d12 * c12;
        let r = Scalar { num: nfin, den: dfin };
        proof {
            let gx = (x.0@, x.1@);
            let ga = (a.0@, a.1@);
            let gb = (b.0@, b.1@);
            let gy = (y.0@, y.1@);
            let s1 = rat_mul(ga.1, hermite_h00(t@));
            let s2 = rat_mul(hermite_m0(gx, ga, gb), hermite_h10(t@));
            let s3 = rat_mul(gb.1, hermite_h01(t@));
            let s4 = rat_mul(hermite_m1(ga, gb, gy), hermite_h11(t@));
            assert(t1n as int == s1.n && t1d as int == s1.d);
            assert(t2n as int == s2.n && t2d as int == s2.d);
            assert(t3n as int == s3.n && t3d as int == s3.d);
            assert(t4n as int == s4.n && t4d as int == s4.d);
            let a1d = a.1.den as int;
            let b1d = b.1.den as int;
            let gm0d = m0d as int;
            let gm1d = m1d as int;
            let gd3 = d3 as int;
            assert((a1d * gd3) * gm0d == (gm0d * gd3) * a1d) by (nonlinear_arith);
            lemma_add_common(s1, s2, gm0d, a1d);
            let s12 = Rat { n: n12 as int, d: d12 as int };
            assert(rat_eqv(rat_add(s1, s2), s12));
            assert((b1d * gd3) * gm1d == (gm1d * gd3) * b1d) by (nonlinear_arith);
            lemma_add_common(s3, s4, gm1d, b1d);
            let s34 = Rat { n: n34 as int, d: d34 as int };
            assert(rat_eqv(rat_add(s3, s4), s34));
            assert(((a1d * gd3) * gm0d) * (b1d * gm1d) == ((b1d * gd3) * gm1d) * (a1d * gm0d))
                by (nonlinear_arith);
            lemma_add_common(s12, s34, c12 as int, c34 as int);
            let sfin = Rat { n: nfin as int, d: dfin as int };
            assert(rat_eqv(rat_add(s12, s34), sfin));
            lemma_pos_mul(s1.d, s2.d);
            lemma_pos_mul(s3.d, s4.d);
            lemma_pos_mul(s12.d, s34.d);
            lemma_add_cong(rat_add(s1, s2), rat_add(s3, s4), s12, s34);
            lemma_eqv_trans(
                rat_add(rat_add(s1, s2), rat_add(s3, s4)),
                rat_add(s12, s34),
                sfin,
            );
            lemma_eqv_symm(rat_add(rat_add(s1, s2), rat_add(s3, s4)), sfin);
            assert(rat_add(rat_add(s1, s2), rat_add(s3, s4)) == cubic_hermite_rat(t@, gx, ga, gb, gy));
        }
        r
    }
}

/// The reflection `b + (b - v)` of the trailing handle through the end point.
fn mirror(b: &Scalar, v: &Scalar) -> (r: Scalar)
    requires
        b.in_limit(),
        v.in_limit(),
    ensures
        r@ == mirror_rat(b@, v@),
        num_within(r@, 3 * lim() * lim()),
        den_within(r@, lim() * lim()),
{
    let w: i128 = 2 * b.num;
    proof {
        lemma_mul_bound(w as int, v.den as int, 2 * lim(), lim());
        lemma_mul_bound(v.num as int, b.den as int, lim(), lim());
        lemma_mul_bound(b.den as int, v.den as int, lim(), lim());
        lemma_pos_mul(b.den as int, v.den as int);
    }
    let n: i128 = w * v.den - v.num * b.den;
    let d: i128 = b.den * v.den;
    Scalar { num: n, den: d }
}

/// Bound bookkeeping for one exact `lerp` evaluation: every intermediate of
/// the common-denominator form stays within the stated products.
pub proof fn lemma_lerp_bounds(t: Rat, a: Rat, b: Rat, na: int, da: int, nb: int, db: int)
    by (nonlinear_arith)
    requires
        num_within(t, lim()),
        den_within(t, lim()),
        num_within(a, na),
        den_within(a, da),
        num_within(b, nb),
        den_within(b, db),
        na >= 0,
        nb >= 0,
        da >= 1,
        db >= 1,
    ensures
        -(2 * lim() * na) <= (t.d - t.n) * a.n <= 2 * lim() * na,
        -(2 * lim() * na * db) <= (t.d - t.n) * a.n * b.d <= 2 * lim() * na * db,
        -(lim() * nb) <= t.n * b.n <= lim() * nb,
        -(lim() * nb * da) <= t.n * b.n * a.d <= lim() * nb * da,
        2 * lim() * na <= 2 * lim() * na * db,
        lim() * nb <= lim() * nb * da,
        0 < a.d * b.d <= da * db,
        0 < a.d * b.d * t.d <= da * db * lim(),
        da * db <= da * db * lim(),
{
}

/// Exact `lerp` with caller-supplied magnitude bounds, so that the Bezier
/// operations can chain evaluations without ever overflowing an `i128`.
pub(crate) fn lerp_bounded(
    t: &Scalar,
    a: &Scalar,
    b: &Scalar,
    na: Ghost<int>,
    da: Ghost<int>,
    nb: Ghost<int>,
    db: Ghost<int>,
) -> (r: Scalar)
    requires
        t.in_limit(),
        num_within(a@, na@),
        den_within(a@, da@),
        num_within(b@, nb@),
        den_within(b@, db@),
        na@ >= 0,
        nb@ >= 0,
        da@ >= 1,
        db@ >= 1,
        2 * lim() * na@ * db@ + lim() * nb@ * da@ <= maxi(),
        da@ * db@ * lim() <= maxi(),
    ensures
        r.wf(),
        r@ == lerp_rat(t@, a@, b@),
        num_within(r@, 2 * lim() * na@ * db@ + lim() * nb@ * da@),
        den_within(r@, da@ * db@ * lim()),
{
    proof {
        lemma_lerp_bounds(t@, a@, b@, na@, da@, nb@, db@);
    }
    let w: i128 = t.den - t.num;
    let n: i128 = w * a.num * b.den + t.num * b.num * a.den;
    let d: i128 = a.den * b.den * t.den;
    Scalar { num: n, den: d }
}

} // verus!
