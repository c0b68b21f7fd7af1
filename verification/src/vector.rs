//! The vector realization: values with one exact rational per coordinate.
//!
//! Interpolation of a flat vector quantity is coordinate-wise, so every
//! operation lifts the scalar realization over the coordinates; the
//! contracts state the same spec formula per coordinate.

use vstd::prelude::*;

use crate::curve::cubic_bezier_mirrored_rat;
use crate::curve::cubic_bezier_rat;
use crate::curve::cubic_hermite_rat;
use crate::curve::lerp_rat;
use crate::curve::quadratic_bezier_rat;
use crate::curve::step_rat;
use crate::rat::Rat;
use crate::rat::den_within;
use crate::rat::num_within;
use crate::rat::rat_eqv;
use crate::rat::rat_lt;
use crate::scalar::Scalar;
use crate::scalar::lim;

verus! {

/// A vector quantity: one exact rational per coordinate. Covers 2D, 3D and
/// 4D points and colors alike; the dimension is the number of coordinates.
pub struct Vector {
    pub c: Vec<Scalar>,
}

impl View for Vector {
    type V = Seq<Rat>;

    open spec fn view(&self) -> Seq<Rat> {
        self.c@.map_values(|s: Scalar| s@)
    }
}

impl Vector {
    /// Every coordinate is well-formed.
    pub open spec fn wf(&self) -> bool {
        forall|i: int| 0 <= i < self@.len() ==> #[trigger] self@[i].d > 0
    }

    /// Every coordinate is within the input bound of the operations.
    pub open spec fn in_limit(&self) -> bool {
        forall|i: int|
            0 <= i < self@.len() ==> num_within(#[trigger] self@[i], lim()) && den_within(
                self@[i],
                lim(),
            )
    }

    /// Builds a vector from its coordinates.
    pub fn new(c: Vec<Scalar>) -> (r: Vector)
        ensures
            r@.len() == c@.len(),
            forall|i: int| 0 <= i < c@.len() ==> r@[i] == c@[i]@,
    {
        Vector { c }
    }

    /// The number of coordinates.
    pub fn dim(&self) -> (r: usize)
        ensures
            r == self@.len(),
    {
        self.c.len()
    }

    /// Coordinate-wise exact `lerp`.
    pub fn lerp(t: &Scalar, a: &Vector, b: &Vector) -> (r: Vector)
        requires
            t.in_limit(),
            a.in_limit(),
            b.in_limit(),
            a@.len() == b@.len(),
        ensures
            r.wf(),
            r@.len() == a@.len(),
            forall|i: int| 0 <= i < a@.len() ==> r@[i] == lerp_rat(t@, a@[i], b@[i]),
    {
        let mut out: Vec<Scalar> = Vec::new();
        let mut i: usize = 0;
        while i < a.c.len()
            invariant
                i <= a.c.len(),
                a.c.len() == b.c.len(),
                t.in_limit(),
                a.in_limit(),
                b.in_limit(),
                out@.len() == i as int,
                forall|j: int| 0 <= j < i as int ==> #[trigger] out@[j]@ == lerp_rat(t@, a@[j], b@[j]),
                forall|j: int| 0 <= j < i as int ==> (#[trigger] out@[j]@).d > 0,
            decreases a.c.len() - i,
        {
            proof {
                assert(a@[i as int] == a.c@[i as int]@);
                assert(b@[i as int] == b.c@[i as int]@);
            }
            let s = Scalar::lerp(t, &a.c[i], &b.c[i]);
            out.push(s);
            i += 1;
        }
        let r = Vector { c: out };
        proof {
            assert forall|k: int| 0 <= k < r@.len() implies #[trigger] r@[k] == out@[k]@ by {}
        }
        r
    }

    /// An exact copy of this vector's coordinates.
    pub fn copied(&self) -> (r: Vector)
        ensures
            r@ == self@,
    {
        let mut out: Vec<Scalar> = Vec::new();
        let mut i: usize = 0;
        while i < self.c.len()
            invariant
                i <= self.c.len(),
                out@.len() == i as int,
                forall|j: int| 0 <= j < i as int ==> #[trigger] out@[j] == self.c@[j],
            decreases self.c.len() - i,
        {
            let s = self.c[i];
            out.push(s);
            i += 1;
        }
        let r = Vector { c: out };
        proof {
            assert(r@ =~= self@);
        }
        r
    }

    /// Pure selection: the whole of `a` strictly before the threshold, the
    /// whole of `b` from it onwards.
    pub fn step(t: &Scalar, threshold: &Scalar, a: &Vector, b: &Vector) -> (r: Vector)
        requires
            t.in_limit(),
            threshold.in_limit(),
        ensures
            r@ == if rat_lt(t@, threshold@) {
                a@
            } else {
                b@
            },
            forall|i: int|
                0 <= i < r@.len() ==> #[trigger] r@[i] == step_rat(t@, threshold@, a@[i], b@[i]),
    {
        if t.lt(threshold) {
            a.copied()
        } else {
            b.copied()
        }
    }

    /// Coordinate-wise exact quadratic Bezier.
    pub fn quadratic_bezier(t: &Scalar, a: &Vector, u: &Vector, b: &Vector) -> (r: Vector)
        requires
            t.in_limit(),
            a.in_limit(),
            u.in_limit(),
            b.in_limit(),
            a@.len() == u@.len(),
            a@.len() == b@.len(),
        ensures
            r.wf(),
            r@.len() == a@.len(),
            forall|i: int|
                0 <= i < a@.len() ==> #[trigger] r@[i] == quadratic_bezier_rat(t@, a@[i], u@[i], b@[i]),
    {
        let mut out: Vec<Scalar> = Vec::new();
        let mut i: usize = 0;
        while i < a.c.len()
            invariant
                i <= a.c.len(),
                a.c.len() == u.c.len(),
                a.c.len() == b.c.len(),
                t.in_limit(),
                a.in_limit(),
                u.in_limit(),
                b.in_limit(),
                out@.len() == i as int,
                forall|j: int|
                    0 <= j < i as int ==> #[trigger] out@[j]@ == quadratic_bezier_rat(
                        t@,
                        a@[j],
                        u@[j],
                        b@[j],
                    ),
                forall|j: int| 0 <= j < i as int ==> (#[trigger] out@[j]@).d > 0,
            decreases a.c.len() - i,
        {
            proof {
                assert(a@[i as int] == a.c@[i as int]@);
                assert(u@[i as int] == u.c@[i as int]@);
                assert(b@[i as int] == b.c@[i as int]@);
            }
            let s = Scalar::quadratic_bezier(t, &a.c[i], &u.c[i], &b.c[i]);
            out.push(s);
            i += 1;
        }
        let r = Vector { c: out };
        proof {
            assert forall|k: int| 0 <= k < r@.len() implies #[trigger] r@[k] == out@[k]@ by {}
        }
        r
    }

    /// Coordinate-wise exact cubic Bezier.
    pub fn cubic_bezier(t: &Scalar, a: &Vector, u: &Vector, v: &Vector, b: &Vector) -> (r: Vector)
        requires
            t.in_limit(),
            a.in_limit(),
            u.in_limit(),
            v.in_limit(),
            b.in_limit(),
            a@.len() == u@.len(),
            a@.len() == v@.len(),
            a@.len() == b@.len(),
        ensures
            r.wf(),
            r@.len() == a@.len(),
            forall|i: int|
                0 <= i < a@.len() ==> #[trigger] r@[i] == cubic_bezier_rat(
                    t@,
                    a@[i],
                    u@[i],
                    v@[i],
                    b@[i],
                ),
    {
        let mut out: Vec<Scalar> = Vec::new();
        let mut i: usize = 0;
        while i < a.c.len()
            invariant
                i <= a.c.len(),
                a.c.len() == u.c.len(),
                a.c.len() == v.c.len(),
                a.c.len() == b.c.len(),
                t.in_limit(),
                a.in_limit(),
                u.in_limit(),
                v.in_limit(),
                b.in_limit(),
                out@.len() == i as int,
                forall|j: int|
                    0 <= j < i as int ==> #[trigger] out@[j]@ == cubic_bezier_rat(
                        t@,
                        a@[j],
                        u@[j],
                        v@[j],
                        b@[j],
                    ),
                forall|j: int| 0 <= j < i as int ==> (#[trigger] out@[j]@).d > 0,
            decreases a.c.len() - i,
        {
            proof {
                assert(a@[i as int] == a.c@[i as int]@);
                assert(u@[i as int] == u.c@[i as int]@);
                assert(v@[i as int] == v.c@[i as int]@);
                assert(b@[i as int] == b.c@[i as int]@);
            }
            let s = Scalar::cubic_bezier(t, &a.c[i], &u.c[i], &v.c[i], &b.c[i]);
            out.push(s);
            i += 1;
        }
        let r = Vector { c: out };
        proof {
            assert forall|k: int| 0 <= k < r@.len() implies #[trigger] r@[k] == out@[k]@ by {}
        }
        r
    }

    /// Coordinate-wise exact mirrored cubic Bezier.
    pub fn cubic_bezier_mirrored(
        t: &Scalar,
        a: &Vector,
        u: &Vector,
        v: &Vector,
        b: &Vector,
    ) -> (r: Vector)
        requires
            t.in_limit(),
            a.in_limit(),
            u.in_limit(),
            v.in_limit(),
            b.in_limit(),
            a@.len() == u@.len(),
            a@.len() == v@.len(),
            a@.len() == b@.len(),
        ensures
            r.wf(),
            r@.len() == a@.len(),
            forall|i: int|
                0 <= i < a@.len() ==> #[trigger] r@[i] == cubic_bezier_mirrored_rat(
                    t@,
                    a@[i],
                    u@[i],
                    v@[i],
                    b@[i],
                ),
    {
        let mut out: Vec<Scalar> = Vec::new();
        let mut i: usize = 0;
        while i < a.c.len()
            invariant
                i <= a.c.len(),
                a.c.len() == u.c.len(),
                a.c.len() == v.c.len(),
                a.c.len() == b.c.len(),
                t.in_limit(),
                a.in_limit(),
                u.in_limit(),
                v.in_limit(),
                b.in_limit(),
                out@.len() == i as int,
                forall|j: int|
                    0 <= j < i as int ==> #[trigger] out@[j]@ == cubic_bezier_mirrored_rat(
                        t@,
                        a@[j],
                        u@[j],
                        v@[j],
                        b@[j],
                    ),
                forall|j: int| 0 <= j < i as int ==> (#[trigger] out@[j]@).d > 0,
            decreases a.c.len() - i,
        {
            proof {
                assert(a@[i as int] == a.c@[i as int]@);
                assert(u@[i as int] == u.c@[i as int]@);
                assert(v@[i as int] == v.c@[i as int]@);
                assert(b@[i as int] == b.c@[i as int]@);
            }
            let s = Scalar::cubic_bezier_mirrored(t, &a.c[i], &u.c[i], &v.c[i], &b.c[i]);
            out.push(s);
            i += 1;
        }
        let r = Vector { c: out };
        proof {
            assert forall|k: int| 0 <= k < r@.len() implies #[trigger] r@[k] == out@[k]@ by {}
        }
        r
    }

    /// Coordinate-wise exact cubic Hermite spline, for samples
    /// `(time, value)` with strictly increasing times.
    pub fn cubic_hermite(
        t: &Scalar,
        x: (Scalar, Vector),
        a: (Scalar, Vector),
        b: (Scalar, Vector),
        y: (Scalar, Vector),
    ) -> (r: Vector)
        requires
            t.in_limit(),
            x.0.in_limit(),
            a.0.in_limit(),
            b.0.in_limit(),
            y.0.in_limit(),
            x.1.in_limit(),
            a.1.in_limit(),
            b.1.in_limit(),
            y.1.in_limit(),
            rat_lt(x.0@, a.0@),
            rat_lt(a.0@, b.0@),
            rat_lt(b.0@, y.0@),
            a.1@.len() == x.1@.len(),
            a.1@.len() == b.1@.len(),
            a.1@.len() == y.1@.len(),
        ensures
            r.wf(),
            r@.len() == a.1@.len(),
            forall|i: int|
                0 <= i < a.1@.len() ==> rat_eqv(
                    #[trigger] r@[i],
                    cubic_hermite_rat(
                        t@,
                        (x.0@, x.1@[i]),
                        (a.0@, a.1@[i]),
                        (b.0@, b.1@[i]),
                        (y.0@, y.1@[i]),
                    ),
                ),
    {
        let mut out: Vec<Scalar> = Vec::new();
        let mut i: usize = 0;
        while i < a.1.c.len()
            invariant
                i <= a.1.c.len(),
                a.1.c.len() == x.1.c.len(),
                a.1.c.len() == b.1.c.len(),
                a.1.c.len() == y.1.c.len(),
                t.in_limit(),
                x.0.in_limit(),
                a.0.in_limit(),
                b.0.in_limit(),
                y.0.in_limit(),
                x.1.in_limit(),
                a.1.in_limit(),
                b.1.in_limit(),
                y.1.in_limit(),
                rat_lt(x.0@, a.0@),
                rat_lt(a.0@, b.0@),
                rat_lt(b.0@, y.0@),
                out@.len() == i as int,
                forall|j: int|
                    0 <= j < i as int ==> rat_eqv(
                        #[trigger] out@[j]@,
                        cubic_hermite_rat(
                            t@,
                            (x.0@, x.1@[j]),
                            (a.0@, a.1@[j]),
                            (b.0@, b.1@[j]),
                            (y.0@, y.1@[j]),
                        ),
                    ),
                forall|j: int| 0 <= j < i as int ==> (#[trigger] out@[j]@).d > 0,
            decreases a.1.c.len() - i,
        {
            proof {
                assert(x.1@[i as int] == x.1.c@[i as int]@);
                assert(a.1@[i as int] == a.1.c@[i as int]@);
                assert(b.1@[i as int] == b.1.c@[i as int]@);
                assert(y.1@[i as int] == y.1.c@[i as int]@);
            }
            let s = Scalar::cubic_hermite(
                t,
                (x.0, x.1.c[i]),
                (a.0, a.1.c[i]),
                (b.0, b.1.c[i]),
                (y.0, y.1.c[i]),
            );
            out.push(s);
            i += 1;
        }
        let r = Vector { c: out };
        proof {
            assert forall|k: int| 0 <= k < r@.len() implies #[trigger] r@[k] == out@[k]@ by {}
        }
        r
    }
}

} // verus!
