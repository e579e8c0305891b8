//! Algebraic laws of the exact rational pairs.
//!
//! [`rat_eq`](crate::rat::rat_eq) is an equivalence on well-formed pairs,
//! and the arithmetic of [`crate::rat`] respects it.  The lemmas here are
//! the toolbox from which the geometric theorems about fitting and
//! cursor-anchored zooming are assembled.

use vstd::prelude::*;

use crate::rat::{
    in_band, rat_add, rat_div, rat_eq, rat_int, rat_inv, rat_le, rat_lt, rat_mul, rat_neg,
    rat_sub, rat_wf, Rat,
};

verus! {

/// Rational equality is symmetric.
pub proof fn lemma_rat_eq_sym(x: Rat, y: Rat)
    requires
        rat_eq(x, y),
    ensures
        rat_eq(y, x),
{
}

/// Rational equality is transitive on well-formed pairs.
pub proof fn lemma_rat_eq_trans(x: Rat, y: Rat, z: Rat)
    by (nonlinear_arith)
    requires
        rat_wf(x),
        rat_wf(y),
        rat_wf(z),
        rat_eq(x, y),
        rat_eq(y, z),
    ensures
        rat_eq(x, z),
{
}

/// Well-formedness is closed under the arithmetic operations.
pub proof fn lemma_rat_ops_wf(x: Rat, y: Rat)
    by (nonlinear_arith)
    requires
        rat_wf(x),
        rat_wf(y),
    ensures
        rat_wf(rat_add(x, y)),
        rat_wf(rat_sub(x, y)),
        rat_wf(rat_mul(x, y)),
        rat_wf(rat_neg(x)),
{
}

/// Sums of equal pairs are equal.
pub proof fn lemma_rat_add_congr(x: Rat, y: Rat, x2: Rat, y2: Rat)
    by (nonlinear_arith)
    requires
        rat_wf(x),
        rat_wf(y),
        rat_wf(x2),
        rat_wf(y2),
        rat_eq(x, x2),
        rat_eq(y, y2),
    ensures
        rat_eq(rat_add(x, y), rat_add(x2, y2)),
{
}

/// Differences of equal pairs are equal.
pub proof fn lemma_rat_sub_congr(x: Rat, y: Rat, x2: Rat, y2: Rat)
    by (nonlinear_arith)
    requires
        rat_wf(x),
        rat_wf(y),
        rat_wf(x2),
        rat_wf(y2),
        rat_eq(x, x2),
        rat_eq(y, y2),
    ensures
        rat_eq(rat_sub(x, y), rat_sub(x2, y2)),
{
}

/// Products of equal pairs are equal.
pub proof fn lemma_rat_mul_congr(x: Rat, y: Rat, x2: Rat, y2: Rat)
    by (nonlinear_arith)
    requires
        rat_wf(x),
        rat_wf(y),
        rat_wf(x2),
        rat_wf(y2),
        rat_eq(x, x2),
        rat_eq(y, y2),
    ensures
        rat_eq(rat_mul(x, y), rat_mul(x2, y2)),
{
}

/// An inequality transports along rational equality.
pub proof fn lemma_rat_le_congr(x: Rat, y: Rat, x2: Rat, y2: Rat)
    by (nonlinear_arith)
    requires
        rat_wf(x),
        rat_wf(y),
        rat_wf(x2),
        rat_wf(y2),
        rat_eq(x, x2),
        rat_eq(y, y2),
        rat_le(x, y),
    ensures
        rat_le(x2, y2),
{
}

/// Multiplication is commutative on the nose.
pub proof fn lemma_rat_mul_comm(x: Rat, y: Rat)
    by (nonlinear_arith)
    ensures
        rat_mul(x, y) == rat_mul(y, x),
{
}

/// Multiplication is associative on the nose.
pub proof fn lemma_rat_mul_assoc(x: Rat, y: Rat, z: Rat)
    by (nonlinear_arith)
    ensures
        rat_mul(rat_mul(x, y), z) == rat_mul(x, rat_mul(y, z)),
{
}

/// One is a multiplicative unit on the nose.
pub proof fn lemma_rat_mul_one(x: Rat)
    ensures
        rat_mul(x, rat_int(1)) == x,
{
}

/// Adding a zero-valued pair does not change the value.
pub proof fn lemma_rat_add_zero(x: Rat, z: Rat)
    by (nonlinear_arith)
    requires
        rat_wf(x),
        rat_wf(z),
        z.n == 0,
    ensures
        rat_eq(rat_add(x, z), x),
        rat_eq(rat_add(z, x), x),
{
}

/// Multiplying by a zero-valued pair gives a zero-valued pair.
pub proof fn lemma_rat_mul_zero(x: Rat, z: Rat)
    by (nonlinear_arith)
    requires
        z.n == 0,
    ensures
        rat_mul(x, z).n == 0,
        rat_mul(z, x).n == 0,
{
}

/// A nonzero pair times its reciprocal is one.
pub proof fn lemma_rat_mul_inv(x: Rat)
    by (nonlinear_arith)
    requires
        rat_wf(x),
        x.n != 0,
    ensures
        rat_wf(rat_inv(x)),
        rat_eq(rat_mul(x, rat_inv(x)), rat_int(1)),
        rat_eq(rat_mul(rat_inv(x), x), rat_int(1)),
{
}

/// Multiplying a quotient by its divisor gives back the dividend.
pub proof fn lemma_rat_mul_div_cancel(x: Rat, y: Rat)
    by (nonlinear_arith)
    requires
        rat_wf(x),
        rat_wf(y),
        y.n != 0,
    ensures
        rat_eq(rat_mul(y, rat_div(x, y)), x),
{
}

/// Multiplication distributes over subtraction.
pub proof fn lemma_rat_mul_dist_sub(s: Rat, x: Rat, y: Rat)
    requires
        rat_wf(s),
        rat_wf(x),
        rat_wf(y),
    ensures
        rat_eq(rat_mul(s, rat_sub(x, y)), rat_sub(rat_mul(s, x), rat_mul(s, y))),
{
    broadcast use vstd::arithmetic::mul::group_mul_is_commutative_and_distributive;
    broadcast use vstd::arithmetic::mul::lemma_mul_is_associative;

    let t: int = x.n * y.d - y.n * x.d;
    assert((s.n * x.n) * (s.d * y.d) - (s.n * y.n) * (s.d * x.d) == (s.n * s.d) * t);
    assert((s.n * t) * ((s.d * x.d) * (s.d * y.d)) == ((s.n * s.d) * t) * (s.d * (x.d * y.d)))
        by (nonlinear_arith);
    assert(rat_eq(rat_mul(s, rat_sub(x, y)), rat_sub(rat_mul(s, x), rat_mul(s, y))));
}

/// `(-o) * k + c * k` is `(c - o) * k`: pulling a point toward the
/// origin and scaling distributes over the difference.
pub proof fn lemma_rat_neg_dist(o: Rat, c: Rat, k: Rat)
    requires
        rat_wf(o),
        rat_wf(c),
        rat_wf(k),
    ensures
        rat_eq(
            rat_add(rat_mul(rat_neg(o), k), rat_mul(c, k)),
            rat_mul(rat_sub(c, o), k),
        ),
{
    let t: int = c.n * o.d - o.n * c.d;
    assert((k.n * k.d) * t == (k.n * k.d) * (c.n * o.d) - (k.n * k.d) * (o.n * c.d))
        by (nonlinear_arith)
        requires t == c.n * o.d - o.n * c.d;
    assert((-o.n * k.n) * (c.d * k.d) == -((k.n * k.d) * (o.n * c.d))) by (nonlinear_arith);
    assert((c.n * k.n) * (o.d * k.d) == (k.n * k.d) * (c.n * o.d)) by (nonlinear_arith);
    assert((-o.n * k.n) * (c.d * k.d) + (c.n * k.n) * (o.d * k.d) == (k.n * k.d) * t);
    assert(((k.n * k.d) * t) * ((c.d * o.d) * k.d) == (t * k.n) * ((o.d * k.d) * (c.d * k.d)))
        by (nonlinear_arith);
    assert(rat_eq(
        rat_add(rat_mul(rat_neg(o), k), rat_mul(c, k)),
        rat_mul(rat_sub(c, o), k),
    ));
}

/// Adding the difference to the subtrahend gives back the minuend.
pub proof fn lemma_rat_add_sub(x: Rat, y: Rat)
    by (nonlinear_arith)
    requires
        rat_wf(x),
        rat_wf(y),
    ensures
        rat_eq(rat_add(x, rat_sub(y, x)), y),
{
}

/// `t + (o + (w - t))` is `o + w`: the correction term cancels.
pub proof fn lemma_rat_shuffle(t: Rat, o: Rat, w: Rat)
    requires
        rat_wf(t),
        rat_wf(o),
        rat_wf(w),
    ensures
        rat_eq(rat_add(t, rat_add(o, rat_sub(w, t))), rat_add(o, w)),
{
    broadcast use vstd::arithmetic::mul::group_mul_is_commutative_and_distributive;
    broadcast use vstd::arithmetic::mul::lemma_mul_is_associative;

    let u: int = o.n * w.d + w.n * o.d;
    assert(t.n * (o.d * (w.d * t.d)) + (o.n * (w.d * t.d) + (w.n * t.d - t.n * w.d) * o.d) * t.d
        == (t.d * t.d) * u);
    assert(((t.d * t.d) * u) * (o.d * w.d) == u * (t.d * (o.d * (w.d * t.d))))
        by (nonlinear_arith);
    assert(rat_eq(rat_add(t, rat_add(o, rat_sub(w, t))), rat_add(o, w)));
}

/// A pair in the scale band has a positive numerator.
pub proof fn lemma_in_band_pos(s: Rat)
    requires
        rat_wf(s),
        in_band(s),
    ensures
        s.n > 0,
{
}

/// The scale band transports along rational equality.
pub proof fn lemma_in_band_congr(x: Rat, y: Rat)
    requires
        rat_wf(x),
        rat_wf(y),
        rat_eq(x, y),
        in_band(x),
    ensures
        in_band(y),
{
    lemma_rat_le_congr(Rat { n: 1, d: 100 }, x, Rat { n: 1, d: 100 }, y);
    lemma_rat_le_congr(x, Rat { n: 100, d: 1 }, y, Rat { n: 100, d: 1 });
}

/// Positivity transports along rational equality.
pub proof fn lemma_rat_eq_pos(x: Rat, y: Rat)
    by (nonlinear_arith)
    requires
        rat_wf(x),
        rat_wf(y),
        rat_eq(x, y),
        x.n > 0,
    ensures
        y.n > 0,
{
}

/// A positive pair has a positive numerator.
pub proof fn lemma_rat_pos_num(x: Rat)
    requires
        rat_wf(x),
        rat_lt(rat_int(0), x),
    ensures
        x.n > 0,
{
}

/// Half of a difference is the difference of the halves.
pub proof fn lemma_rat_half_diff(u: Rat, v: Rat)
    requires
        rat_wf(u),
        rat_wf(v),
    ensures
        rat_eq(
            rat_sub(rat_div(u, rat_int(2)), rat_div(v, rat_int(2))),
            rat_div(rat_sub(u, v), rat_int(2)),
        ),
{
    broadcast use vstd::arithmetic::mul::group_mul_is_commutative_and_distributive;
    broadcast use vstd::arithmetic::mul::lemma_mul_is_associative;

    assert(rat_eq(
        rat_sub(rat_div(u, rat_int(2)), rat_div(v, rat_int(2))),
        rat_div(rat_sub(u, v), rat_int(2)),
    ));
}

/// Half of a nonnegative pair is nonnegative.
pub proof fn lemma_rat_half_nonneg(x: Rat)
    requires
        rat_wf(x),
        rat_le(rat_int(0), x),
    ensures
        rat_le(rat_int(0), rat_div(x, rat_int(2))),
{
}

/// Placing a bar of length `v` at offset `(u - v) / 2` inside a span of
/// length `u` keeps its far end inside the span.
pub proof fn lemma_rat_center_fits(u: Rat, v: Rat)
    requires
        rat_wf(u),
        rat_wf(v),
        rat_le(v, u),
    ensures
        rat_le(rat_add(rat_div(rat_sub(u, v), rat_int(2)), v), u),
{
    broadcast use vstd::arithmetic::mul::group_mul_is_commutative_and_distributive;
    broadcast use vstd::arithmetic::mul::lemma_mul_is_associative;

    let lhs = rat_add(rat_div(rat_sub(u, v), rat_int(2)), v);
    assert(lhs.n == (u.n * v.d - v.n * u.d) * v.d + v.n * (u.d * 2 * v.d));
    assert(lhs.n * u.d <= u.n * lhs.d) by (nonlinear_arith)
        requires
            lhs.n == (u.n * v.d - v.n * u.d) * v.d + v.n * (u.d * 2 * v.d),
            lhs.d == u.d * 2 * v.d * v.d,
            v.n * u.d <= u.n * v.d,
            u.d > 0,
            v.d > 0;
}

/// If the image is relatively wider than the usable area, matching the
/// widths keeps the scaled height within the usable height.
pub proof fn lemma_rat_cross(cw: Rat, uh: Rat, ix: Rat, iy: Rat)
    requires
        rat_wf(cw),
        rat_wf(uh),
        rat_wf(ix),
        rat_wf(iy),
        rat_lt(rat_int(0), cw),
        rat_lt(rat_int(0), uh),
        rat_lt(rat_int(0), ix),
        rat_lt(rat_int(0), iy),
        rat_lt(rat_div(cw, uh), rat_div(ix, iy)),
    ensures
        rat_le(rat_mul(iy, rat_div(cw, ix)), uh),
{
    lemma_rat_pos_num(cw);
    lemma_rat_pos_num(uh);
    lemma_rat_pos_num(ix);
    lemma_rat_pos_num(iy);
    assert(rat_le(rat_mul(iy, rat_div(cw, ix)), uh)) by (nonlinear_arith)
        requires
            cw.n > 0,
            uh.n > 0,
            ix.n > 0,
            iy.n > 0,
            rat_lt(rat_div(cw, uh), rat_div(ix, iy)),
            rat_wf(cw),
            rat_wf(uh),
            rat_wf(ix),
            rat_wf(iy);
}

/// If the image is relatively taller than the usable area, matching the
/// heights keeps the scaled width within the container width.
pub proof fn lemma_rat_cross_taller(cw: Rat, uh: Rat, ix: Rat, iy: Rat)
    requires
        rat_wf(cw),
        rat_wf(uh),
        rat_wf(ix),
        rat_wf(iy),
        rat_lt(rat_int(0), cw),
        rat_lt(rat_int(0), uh),
        rat_lt(rat_int(0), ix),
        rat_lt(rat_int(0), iy),
        rat_le(rat_div(ix, iy), rat_div(cw, uh)),
    ensures
        rat_le(rat_mul(ix, rat_div(uh, iy)), cw),
{
    lemma_rat_pos_num(cw);
    lemma_rat_pos_num(uh);
    lemma_rat_pos_num(ix);
    lemma_rat_pos_num(iy);
    assert(rat_le(rat_mul(ix, rat_div(uh, iy)), cw)) by (nonlinear_arith)
        requires
            cw.n > 0,
            uh.n > 0,
            ix.n > 0,
            iy.n > 0,
            rat_le(rat_div(ix, iy), rat_div(cw, uh)),
            rat_wf(cw),
            rat_wf(uh),
            rat_wf(ix),
            rat_wf(iy);
}

} // verus!
