//! Specifications of the interpolation operations over rationals.
//!
//! These spec functions are the single contract both realizations (the scalar
//! one and the componentwise vector one) are verified against. `lerp` is the
//! canonical mix; the Bezier operations are its De Casteljau compositions;
//! the Hermite spline uses the standard cubic basis with finite-difference
//! tangents scaled by the local time span.

use vstd::prelude::*;

use crate::rat::Rat;
use crate::rat::rat_add;
use crate::rat::rat_div;
use crate::rat::rat_lt;
use crate::rat::rat_mul;
use crate::rat::rat_sub;

verus! {

/// Pure selection: `a` strictly before the threshold, `b` from it onwards.
pub open spec fn step_rat(t: Rat, threshold: Rat, a: Rat, b: Rat) -> Rat {
    if rat_lt(t, threshold) {
        a
    } else {
        b
    }
}

/// The affine combination `a + (b - a) * t`, written over the common
/// denominator `a.d * b.d * t.d`.
pub open spec fn lerp_rat(t: Rat, a: Rat, b: Rat) -> Rat {
    Rat {
        n: (t.d - t.n) * a.n * b.d + t.n * b.n * a.d,
        d: a.d * b.d * t.d,
    }
}

/// De Casteljau reduction of three control points.
pub open spec fn quadratic_bezier_rat(t: Rat, a: Rat, u: Rat, b: Rat) -> Rat {
    lerp_rat(t, lerp_rat(t, a, u), lerp_rat(t, u, b))
}

/// De Casteljau reduction of four control points.
pub open spec fn cubic_bezier_rat(t: Rat, a: Rat, u: Rat, v: Rat, b: Rat) -> Rat {
    lerp_rat(
        t,
        lerp_rat(t, lerp_rat(t, a, u), lerp_rat(t, u, v)),
        lerp_rat(t, lerp_rat(t, u, v), lerp_rat(t, v, b)),
    )
}

/// The trailing handle reflected through the end point: `b + (b - v)`.
pub open spec fn mirror_rat(b: Rat, v: Rat) -> Rat {
    Rat { n: 2 * b.n * v.d - v.n * b.d, d: b.d * v.d }
}

/// A cubic Bezier whose trailing handle is the reflection of `v` through `b`,
/// so the curve continues a preceding segment that ended at `b` with handle `v`.
pub open spec fn cubic_bezier_mirrored_rat(t: Rat, a: Rat, u: Rat, v: Rat, b: Rat) -> Rat {
    cubic_bezier_rat(t, a, u, mirror_rat(b, v), b)
}

/// Hermite basis `2t^3 - 3t^2 + 1`, over the denominator `t.d^3`.
pub open spec fn hermite_h00(t: Rat) -> Rat {
    Rat {
        n: 2 * t.n * t.n * t.n - 3 * t.n * t.n * t.d + t.d * t.d * t.d,
        d: t.d * t.d * t.d,
    }
}

/// Hermite basis `t^3 - 2t^2 + t`, over the denominator `t.d^3`.
pub open spec fn hermite_h10(t: Rat) -> Rat {
    Rat {
        n: t.n * t.n * t.n - 2 * t.n * t.n * t.d + t.n * t.d * t.d,
        d: t.d * t.d * t.d,
    }
}

/// Hermite basis `3t^2 - 2t^3`, over the denominator `t.d^3`.
pub open spec fn hermite_h01(t: Rat) -> Rat {
    Rat {
        n: 3 * t.n * t.n * t.d - 2 * t.n * t.n * t.n,
        d: t.d * t.d * t.d,
    }
}

/// Hermite basis `t^3 - t^2`, over the denominator `t.d^3`.
pub open spec fn hermite_h11(t: Rat) -> Rat {
    Rat { n: t.n * t.n * t.n - t.n * t.n * t.d, d: t.d * t.d * t.d }
}

/// Start tangent: the finite difference across `x` and `b`, scaled by the
/// span of the evaluated segment. Each sample is a `(time, value)` pair.
pub open spec fn hermite_m0(x: (Rat, Rat), a: (Rat, Rat), b: (Rat, Rat)) -> Rat {
    rat_mul(rat_div(rat_sub(b.1, x.1), rat_sub(b.0, x.0)), rat_sub(b.0, a.0))
}

/// End tangent: the finite difference across `a` and `y`, scaled by the
/// span of the evaluated segment.
pub open spec fn hermite_m1(a: (Rat, Rat), b: (Rat, Rat), y: (Rat, Rat)) -> Rat {
    rat_mul(rat_div(rat_sub(y.1, a.1), rat_sub(y.0, a.0)), rat_sub(b.0, a.0))
}

/// The Hermite spline segment between samples `a` and `b`, with `x` and `y`
/// as the surrounding samples:
/// `a.v * h00 + m0 * h10 + b.v * h01 + m1 * h11`.
pub open spec fn cubic_hermite_rat(
    t: Rat,
    x: (Rat, Rat),
    a: (Rat, Rat),
    b: (Rat, Rat),
    y: (Rat, Rat),
) -> Rat {
    rat_add(
        rat_add(rat_mul(a.1, hermite_h00(t)), rat_mul(hermite_m0(x, a, b), hermite_h10(t))),
        rat_add(rat_mul(b.1, hermite_h01(t)), rat_mul(hermite_m1(a, b, y), hermite_h11(t))),
    )
}

} // verus!
