//! The mathematical model: rational numbers as integer pairs.
//!
//! A rational is a numerator together with a strictly positive denominator.
//! Pairs are never reduced; two pairs denote the same rational exactly when
//! cross-multiplication says so ([`rat_eqv`]). All contracts of the crate are
//! stated over this model.

use vstd::prelude::*;

verus! {

/// A rational number `n / d`. Well-formed values keep `d` strictly positive.
pub struct Rat {
    pub n: int,
    pub d: int,
}

/// Well-formedness: the denominator is strictly positive.
pub open spec fn rat_wf(a: Rat) -> bool {
    a.d > 0
}

/// `a` and `b` denote the same rational number.
pub open spec fn rat_eqv(a: Rat, b: Rat) -> bool {
    a.n * b.d == b.n * a.d
}

/// `a` is strictly below `b` (meaningful for positive denominators).
pub open spec fn rat_lt(a: Rat, b: Rat) -> bool {
    a.n * b.d < b.n * a.d
}

pub open spec fn rat_zero() -> Rat {
    Rat { n: 0, d: 1 }
}

pub open spec fn rat_one() -> Rat {
    Rat { n: 1, d: 1 }
}

pub open spec fn rat_add(a: Rat, b: Rat) -> Rat {
    Rat { n: a.n * b.d + b.n * a.d, d: a.d * b.d }
}

pub open spec fn rat_sub(a: Rat, b: Rat) -> Rat {
    Rat { n: a.n * b.d - b.n * a.d, d: a.d * b.d }
}

pub open spec fn rat_mul(a: Rat, b: Rat) -> Rat {
    Rat { n: a.n * b.n, d: a.d * b.d }
}

/// Quotient of two rationals. The result is well-formed only when the
/// divisor's numerator is strictly positive, which is how every division in
/// this crate arises (time spans of strictly increasing samples).
pub open spec fn rat_div(a: Rat, b: Rat) -> Rat {
    Rat { n: a.n * b.d, d: a.d * b.n }
}

/// The numerator's magnitude stays within `bound`.
pub open spec fn num_within(a: Rat, bound: int) -> bool {
    -bound <= a.n <= bound
}

/// The denominator is positive and stays within `bound`.
pub open spec fn den_within(a: Rat, bound: int) -> bool {
    0 < a.d <= bound
}

/// Denoting the same rational is symmetric.
pub proof fn lemma_eqv_symm(a: Rat, b: Rat)
    requires
        rat_eqv(a, b),
    ensures
        rat_eqv(b, a),
{
}

/// Denoting the same rational is transitive across a well-formed middle pair.
pub proof fn lemma_eqv_trans(a: Rat, b: Rat, c: Rat) by (nonlinear_arith)
    requires
        b.d > 0,
        rat_eqv(a, b),
        rat_eqv(b, c),
    ensures
        rat_eqv(a, c),
{
}

/// Strict order composes across a well-formed middle pair.
pub proof fn lemma_lt_trans(a: Rat, b: Rat, c: Rat) by (nonlinear_arith)
    requires
        a.d > 0,
        b.d > 0,
        c.d > 0,
        rat_lt(a, b),
        rat_lt(b, c),
    ensures
        rat_lt(a, c),
{
}

/// A product of positives is positive.
pub proof fn lemma_pos_mul(x: int, y: int) by (nonlinear_arith)
    requires
        x > 0,
        y > 0,
    ensures
        x * y > 0,
{
}

/// Multiplying by a factor equal to one is the identity.
pub proof fn lemma_mul_one_right(x: int, y: int) by (nonlinear_arith)
    requires
        y == 1,
    ensures
        x * y == x,
{
}

/// Multiplying by a factor equal to zero gives zero.
pub proof fn lemma_mul_zero_right(x: int, y: int) by (nonlinear_arith)
    requires
        y == 0,
    ensures
        x * y == 0,
{
}

/// Multiplying a factor equal to zero gives zero.
pub proof fn lemma_mul_zero_left(x: int, y: int) by (nonlinear_arith)
    requires
        x == 0,
    ensures
        x * y == 0,
{
}

/// Magnitude bound for a product of bounded factors.
pub proof fn lemma_mul_bound(x: int, y: int, bx: int, by: int) by (nonlinear_arith)
    requires
        -bx <= x <= bx,
        -by <= y <= by,
        0 <= bx,
        0 <= by,
    ensures
        -(bx * by) <= x * y <= bx * by,
{
}

/// Adding two rationals over a shared denominator: when `p.d * cp` and
/// `q.d * cq` agree, the sum is the pair of scaled numerators over that
/// common denominator.
pub proof fn lemma_add_common(p: Rat, q: Rat, cp: int, cq: int) by (nonlinear_arith)
    requires
        p.d > 0,
        q.d > 0,
        cp > 0,
        cq > 0,
        p.d * cp == q.d * cq,
    ensures
        p.d * cp > 0,
        rat_eqv(rat_add(p, q), (Rat { n: p.n * cp + q.n * cq, d: p.d * cp })),
{
}

/// Addition respects equality of denoted rationals.
pub proof fn lemma_add_cong(x: Rat, y: Rat, x2: Rat, y2: Rat) by (nonlinear_arith)
    requires
        x.d > 0,
        y.d > 0,
        x2.d > 0,
        y2.d > 0,
        rat_eqv(x, x2),
        rat_eqv(y, y2),
    ensures
        rat_eqv(rat_add(x, y), rat_add(x2, y2)),
{
}

/// Adding a pair whose numerator is zero does not change the denoted value.
pub proof fn lemma_add_zero_right(p: Rat, q: Rat) by (nonlinear_arith)
    requires
        p.d > 0,
        q.d > 0,
        q.n == 0,
    ensures
        rat_eqv(rat_add(p, q), p),
{
}

/// Symmetric form of [`lemma_add_zero_right`].
pub proof fn lemma_add_zero_left(p: Rat, q: Rat) by (nonlinear_arith)
    requires
        p.d > 0,
        q.d > 0,
        p.n == 0,
    ensures
        rat_eqv(rat_add(p, q), q),
{
}

} // verus!
