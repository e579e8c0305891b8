//! The geometric laws of the engine.
//!
//! The central theorem is [`lemma_cursor_anchored_zoom`]: after a
//! cursor-anchored zoom, the image point that sat under the cursor
//! before the zoom maps back exactly onto the cursor.  Beside it stand
//! the letterboxing theorem [`lemma_fit_contains`] and the scale-band
//! theorem [`lemma_scale_band`].

use vstd::prelude::*;

use crate::rat::{in_band, lemma_mul_pos, lemma_rat_norm, rat_add, rat_div, rat_eq, rat_int,
    rat_inv, rat_le, rat_lt, rat_mul, rat_neg, rat_norm, rat_sub, rat_wf, Rat};
use crate::rat_laws::{
    lemma_in_band_congr, lemma_in_band_pos, lemma_rat_add_congr, lemma_rat_add_sub,
    lemma_rat_add_zero, lemma_rat_center_fits, lemma_rat_cross, lemma_rat_cross_taller,
    lemma_rat_eq_pos, lemma_rat_eq_sym, lemma_rat_eq_trans, lemma_rat_half_diff,
    lemma_rat_half_nonneg, lemma_rat_le_congr, lemma_rat_mul_congr, lemma_rat_mul_dist_sub,
    lemma_rat_mul_div_cancel, lemma_rat_mul_inv, lemma_rat_mul_zero, lemma_rat_neg_dist,
    lemma_rat_ops_wf, lemma_rat_pos_num, lemma_rat_shuffle, lemma_rat_sub_congr,
};
use crate::gesture::{
    commit_offset, drag_current, drag_start, is_live_drag, pend_move, pend_up, tick_spec,
    EngineV,
};
use crate::transform::{
    czoom_ok, czoom_spec, fit_scale, fit_spec, fit_wider, i2s_spec, m2_diag, s2i_spec, t_wf,
    usable_center, usable_h, wheel_factor, zoom_step_ok, zoom_step_spec, TransformV,
};
use crate::types::{
    m2_det, m2_inverse, m2_mul_vec, v2_add, v2_mul, v2_neg, v2_norm, v2_single, v2_sub, v2_wf,
    M2, V2,
};

verus! {

/// Applying a diagonal matrix to a vector just scales each component.
pub proof fn lemma_diag_mul_vec(m: M2, v: V2)
    requires
        rat_wf(m.a),
        rat_wf(m.b),
        rat_wf(m.c),
        rat_wf(m.d),
        m.b.n == 0,
        m.c.n == 0,
        v2_wf(v),
    ensures
        rat_wf(m2_mul_vec(m, v).x),
        rat_wf(m2_mul_vec(m, v).y),
        rat_eq(m2_mul_vec(m, v).x, rat_mul(m.a, v.x)),
        rat_eq(m2_mul_vec(m, v).y, rat_mul(m.d, v.y)),
{
    let ax = rat_mul(m.a, v.x);
    let by = rat_mul(m.b, v.y);
    let cx = rat_mul(m.c, v.x);
    let dy = rat_mul(m.d, v.y);
    lemma_rat_ops_wf(m.a, v.x);
    lemma_rat_ops_wf(m.b, v.y);
    lemma_rat_ops_wf(m.c, v.x);
    lemma_rat_ops_wf(m.d, v.y);
    lemma_rat_mul_zero(v.y, m.b);
    lemma_rat_mul_zero(v.x, m.c);
    lemma_rat_add_zero(ax, by);
    lemma_rat_add_zero(dy, cx);
    lemma_rat_ops_wf(ax, by);
    lemma_rat_ops_wf(cx, dy);
}

/// The general inverse of a uniform-scale diagonal matrix with a
/// positive scale is again diagonal, with both diagonal entries equal
/// to the reciprocal of the scale.
pub proof fn lemma_diag_inverse(m: M2)
    requires
        rat_wf(m.a),
        rat_wf(m.b),
        rat_wf(m.c),
        rat_wf(m.d),
        m.b.n == 0,
        m.c.n == 0,
        m.a == m.d,
        m.a.n > 0,
    ensures
        m2_det(m).n > 0,
        rat_wf(m2_det(m)),
        rat_wf(m2_inverse(m).a),
        rat_wf(m2_inverse(m).b),
        rat_wf(m2_inverse(m).c),
        rat_wf(m2_inverse(m).d),
        m2_inverse(m).b.n == 0,
        m2_inverse(m).c.n == 0,
        rat_eq(m2_inverse(m).a, rat_inv(m.a)),
        rat_eq(m2_inverse(m).d, rat_inv(m.a)),
{
    let k: int = m.b.d * m.c.d;
    let det = m2_det(m);
    lemma_mul_pos(m.a.n, m.a.n);
    lemma_mul_pos(m.b.d, m.c.d);
    lemma_mul_pos(m.a.d, m.d.d);
    assert(det.n == (m.a.n * m.a.n) * k) by (nonlinear_arith)
        requires
            det.n == (m.a.n * m.d.n) * (m.b.d * m.c.d) - (m.b.n * m.c.n) * (m.a.d * m.d.d),
            k == m.b.d * m.c.d,
            m.b.n == 0,
            m.d.n == m.a.n;
    assert(det.d == (m.a.d * m.a.d) * k) by (nonlinear_arith)
        requires
            det.d == (m.a.d * m.d.d) * (m.b.d * m.c.d),
            k == m.b.d * m.c.d,
            m.d.d == m.a.d;
    lemma_mul_pos(m.a.n * m.a.n, k);
    lemma_mul_pos(m.a.d * m.a.d, k);
    lemma_mul_pos(m.d.d, det.n);
    lemma_mul_pos(m.b.d, det.n);
    lemma_mul_pos(m.c.d, det.n);
    lemma_mul_pos(m.a.d, det.n);
    // the two diagonal entries of the inverse both equal 1 / a
    assert((m.a.n * ((m.a.d * m.a.d) * k)) * m.a.n == m.a.d * (m.a.d * ((m.a.n * m.a.n) * k)))
        by (nonlinear_arith);
    assert(rat_eq(m2_inverse(m).a, rat_inv(m.a)));
    assert(rat_eq(m2_inverse(m).d, rat_inv(m.a)));
}

/// Applying the inverse of a uniform-scale diagonal matrix divides each
/// component by the scale.
pub proof fn lemma_diag_inv_apply(m: M2, w: V2)
    requires
        rat_wf(m.a),
        rat_wf(m.b),
        rat_wf(m.c),
        rat_wf(m.d),
        m.b.n == 0,
        m.c.n == 0,
        m.a == m.d,
        m.a.n > 0,
        v2_wf(w),
    ensures
        rat_wf(m2_mul_vec(m2_inverse(m), w).x),
        rat_wf(m2_mul_vec(m2_inverse(m), w).y),
        rat_eq(m2_mul_vec(m2_inverse(m), w).x, rat_mul(w.x, rat_inv(m.a))),
        rat_eq(m2_mul_vec(m2_inverse(m), w).y, rat_mul(w.y, rat_inv(m.a))),
{
    let inv_m = m2_inverse(m);
    lemma_diag_inverse(m);
    lemma_diag_mul_vec(inv_m, w);
    lemma_rat_mul_inv(m.a);
    lemma_rat_ops_wf(inv_m.a, w.x);
    lemma_rat_ops_wf(inv_m.d, w.y);
    lemma_rat_ops_wf(rat_inv(m.a), w.x);
    lemma_rat_ops_wf(rat_inv(m.a), w.y);
    // x component
    lemma_rat_mul_congr(inv_m.a, w.x, rat_inv(m.a), w.x);
    lemma_rat_eq_trans(
        m2_mul_vec(inv_m, w).x,
        rat_mul(inv_m.a, w.x),
        rat_mul(rat_inv(m.a), w.x),
    );
    assert(rat_mul(rat_inv(m.a), w.x) == rat_mul(w.x, rat_inv(m.a)))
        by { crate::rat_laws::lemma_rat_mul_comm(rat_inv(m.a), w.x); }
    // y component
    lemma_rat_mul_congr(inv_m.d, w.y, rat_inv(m.a), w.y);
    lemma_rat_eq_trans(
        m2_mul_vec(inv_m, w).y,
        rat_mul(inv_m.d, w.y),
        rat_mul(rat_inv(m.a), w.y),
    );
    assert(rat_mul(rat_inv(m.a), w.y) == rat_mul(w.y, rat_inv(m.a)))
        by { crate::rat_laws::lemma_rat_mul_comm(rat_inv(m.a), w.y); }
}

/// The scalar heart of the cursor anchor: if the post-zoom sample is the
/// cursor distance divided by the new scale, and the offset is corrected
/// by the scaled difference of the samples, then scaling the pre-zoom
/// sample and adding the corrected offset lands exactly on the cursor.
pub proof fn lemma_anchor(s2: Rat, c: Rat, o: Rat, pre: Rat, post: Rat, o2: Rat)
    requires
        rat_wf(s2),
        rat_wf(c),
        rat_wf(o),
        rat_wf(pre),
        rat_wf(post),
        rat_wf(o2),
        s2.n != 0,
        rat_eq(post, rat_mul(rat_sub(c, o), rat_inv(s2))),
        rat_eq(o2, rat_add(o, rat_mul(s2, rat_sub(post, pre)))),
    ensures
        rat_eq(rat_add(rat_mul(s2, pre), o2), c),
{
    let w = rat_sub(c, o);
    let i = rat_inv(s2);
    let t = rat_mul(s2, pre);
    lemma_rat_mul_inv(s2);
    lemma_rat_ops_wf(c, o);
    lemma_rat_ops_wf(w, i);
    lemma_rat_ops_wf(s2, post);
    lemma_rat_ops_wf(s2, pre);
    lemma_rat_ops_wf(s2, i);
    lemma_rat_ops_wf(w, rat_mul(s2, i));
    lemma_rat_ops_wf(w, rat_int(1));
    lemma_rat_ops_wf(s2, rat_mul(w, i));

    // step 1: s2 * post == w
    lemma_rat_mul_congr(s2, post, s2, rat_mul(w, i));
    assert(rat_mul(s2, rat_mul(w, i)) == rat_mul(rat_mul(s2, w), i))
        by { crate::rat_laws::lemma_rat_mul_assoc(s2, w, i); }
    assert(rat_mul(s2, w) == rat_mul(w, s2))
        by { crate::rat_laws::lemma_rat_mul_comm(s2, w); }
    assert(rat_mul(rat_mul(w, s2), i) == rat_mul(w, rat_mul(s2, i)))
        by { crate::rat_laws::lemma_rat_mul_assoc(w, s2, i); }
    lemma_rat_mul_congr(w, rat_mul(s2, i), w, rat_int(1));
    assert(rat_mul(w, rat_int(1)) == w)
        by { crate::rat_laws::lemma_rat_mul_one(w); }
    lemma_rat_eq_trans(rat_mul(s2, post), rat_mul(w, rat_mul(s2, i)), w);

    // step 2: s2 * (post - pre) == w - s2 * pre
    lemma_rat_ops_wf(post, pre);
    lemma_rat_ops_wf(s2, rat_sub(post, pre));
    lemma_rat_mul_dist_sub(s2, post, pre);
    lemma_rat_ops_wf(rat_mul(s2, post), t);
    lemma_rat_ops_wf(w, t);
    lemma_rat_sub_congr(rat_mul(s2, post), t, w, t);
    lemma_rat_eq_trans(
        rat_mul(s2, rat_sub(post, pre)),
        rat_sub(rat_mul(s2, post), t),
        rat_sub(w, t),
    );

    // step 3: o2 == o + (w - s2 * pre)
    lemma_rat_ops_wf(o, rat_mul(s2, rat_sub(post, pre)));
    lemma_rat_ops_wf(o, rat_sub(w, t));
    lemma_rat_add_congr(o, rat_mul(s2, rat_sub(post, pre)), o, rat_sub(w, t));
    lemma_rat_eq_trans(o2, rat_add(o, rat_mul(s2, rat_sub(post, pre))), rat_add(o, rat_sub(w, t)));

    // step 4: t + o2 == o + w
    lemma_rat_ops_wf(t, o2);
    lemma_rat_ops_wf(t, rat_add(o, rat_sub(w, t)));
    lemma_rat_add_congr(t, o2, t, rat_add(o, rat_sub(w, t)));
    lemma_rat_shuffle(t, o, w);
    lemma_rat_ops_wf(o, w);
    lemma_rat_eq_trans(
        rat_add(t, o2),
        rat_add(t, rat_add(o, rat_sub(w, t))),
        rat_add(o, w),
    );

    // step 5: o + w == o + (c - o) == c
    lemma_rat_add_sub(o, c);
    lemma_rat_eq_trans(rat_add(t, o2), rat_add(o, w), c);
}

/// The cursor-anchored zoom invariant: for every well-formed transform,
/// wheel magnitude and cursor position whose zoom applies (the new scale
/// stays in the band), the image point under the cursor before the zoom
/// maps back exactly onto the cursor after the zoom.
pub proof fn lemma_cursor_anchored_zoom(t: TransformV, m: Rat, cursor: V2)
    requires
        t_wf(t),
        rat_wf(m),
        v2_wf(cursor),
        in_band(rat_mul(t.mat.a, wheel_factor(m))),
    ensures
        rat_eq(czoom_spec(t, m, cursor).mat.a, rat_mul(t.mat.a, wheel_factor(m))),
        rat_eq(i2s_spec(czoom_spec(t, m, cursor), s2i_spec(t, cursor)).x, cursor.x),
        rat_eq(i2s_spec(czoom_spec(t, m, cursor), s2i_spec(t, cursor)).y, cursor.y),
{
    let f = wheel_factor(m);
    let rns = rat_mul(t.mat.a, f);
    assert(f.d == 1 * (m.d * 500));
    assert(f.d > 0);
    lemma_mul_pos(t.mat.a.d, f.d);
    assert(rat_wf(rns));
    lemma_rat_norm(rns);
    let ns = rat_norm(rns);
    lemma_in_band_pos(rns);
    lemma_rat_eq_pos(rns, ns);
    let mat2 = M2 { a: ns, b: t.mat.b, c: t.mat.c, d: ns };
    let w = v2_sub(cursor, t.off);
    let pre_r = m2_mul_vec(m2_inverse(t.mat), w);
    let post_r = m2_mul_vec(m2_inverse(mat2), w);
    let pre = v2_norm(pre_r);
    let post = v2_norm(post_r);
    let diff = v2_sub(post, pre);
    let corr = m2_mul_vec(mat2, diff);
    let off2 = v2_add(t.off, corr);

    lemma_in_band_pos(t.mat.a);
    lemma_rat_ops_wf(cursor.x, t.off.x);
    lemma_rat_ops_wf(cursor.y, t.off.y);
    lemma_diag_inv_apply(t.mat, w);
    lemma_diag_inv_apply(mat2, w);

    // the stored samples are the raw samples in lowest terms
    lemma_rat_norm(pre_r.x);
    lemma_rat_norm(pre_r.y);
    lemma_rat_norm(post_r.x);
    lemma_rat_norm(post_r.y);
    lemma_rat_mul_inv(ns);
    lemma_rat_ops_wf(w.x, rat_inv(ns));
    lemma_rat_ops_wf(w.y, rat_inv(ns));
    lemma_rat_eq_trans(post.x, post_r.x, rat_mul(w.x, rat_inv(ns)));
    lemma_rat_eq_trans(post.y, post_r.y, rat_mul(w.y, rat_inv(ns)));

    lemma_rat_ops_wf(post.x, pre.x);
    lemma_rat_ops_wf(post.y, pre.y);
    lemma_diag_mul_vec(mat2, diff);
    lemma_rat_ops_wf(t.off.x, corr.x);
    lemma_rat_ops_wf(t.off.y, corr.y);
    lemma_rat_ops_wf(ns, diff.x);
    lemma_rat_ops_wf(ns, diff.y);

    // the corrected offset equals o + ns * (post - pre), component-wise
    lemma_rat_add_congr(t.off.x, corr.x, t.off.x, rat_mul(ns, diff.x));
    lemma_rat_add_congr(t.off.y, corr.y, t.off.y, rat_mul(ns, diff.y));
    lemma_rat_ops_wf(t.off.x, rat_mul(ns, diff.x));
    lemma_rat_ops_wf(t.off.y, rat_mul(ns, diff.y));

    // anchor each component
    lemma_anchor(ns, cursor.x, t.off.x, pre.x, post.x, off2.x);
    lemma_anchor(ns, cursor.y, t.off.y, pre.y, post.y, off2.y);

    // the mapped raw pre-image point scales component-wise, and agrees
    // with the stored, reduced sample
    lemma_diag_mul_vec(mat2, pre_r);
    lemma_rat_ops_wf(ns, pre_r.x);
    lemma_rat_ops_wf(ns, pre_r.y);
    lemma_rat_ops_wf(ns, pre.x);
    lemma_rat_ops_wf(ns, pre.y);
    lemma_rat_mul_congr(ns, pre_r.x, ns, pre.x);
    lemma_rat_mul_congr(ns, pre_r.y, ns, pre.y);
    lemma_rat_eq_trans(m2_mul_vec(mat2, pre_r).x, rat_mul(ns, pre_r.x), rat_mul(ns, pre.x));
    lemma_rat_eq_trans(m2_mul_vec(mat2, pre_r).y, rat_mul(ns, pre_r.y), rat_mul(ns, pre.y));
    // the stored offset is the corrected offset in lowest terms
    lemma_rat_norm(off2.x);
    lemma_rat_norm(off2.y);
    let offn = v2_norm(off2);
    lemma_rat_ops_wf(m2_mul_vec(mat2, pre_r).x, offn.x);
    lemma_rat_ops_wf(m2_mul_vec(mat2, pre_r).y, offn.y);
    lemma_rat_ops_wf(rat_mul(ns, pre.x), off2.x);
    lemma_rat_ops_wf(rat_mul(ns, pre.y), off2.y);
    lemma_rat_add_congr(m2_mul_vec(mat2, pre_r).x, offn.x, rat_mul(ns, pre.x), off2.x);
    lemma_rat_add_congr(m2_mul_vec(mat2, pre_r).y, offn.y, rat_mul(ns, pre.y), off2.y);
    lemma_rat_eq_trans(
        rat_add(m2_mul_vec(mat2, pre_r).x, offn.x),
        rat_add(rat_mul(ns, pre.x), off2.x),
        cursor.x,
    );
    lemma_rat_eq_trans(
        rat_add(m2_mul_vec(mat2, pre_r).y, offn.y),
        rat_add(rat_mul(ns, pre.y), off2.y),
        cursor.y,
    );
}

/// One axis of a letterbox: placing a bar of length `scaled` at offset
/// `span/2 - scaled/2` inside a span keeps it inside, keeps the offset
/// nonnegative, and centres it.
pub proof fn lemma_fit_axis(span: Rat, scaled: Rat)
    requires
        rat_wf(span),
        rat_wf(scaled),
        rat_le(scaled, span),
    ensures
        ({
            let off = rat_sub(rat_div(span, rat_int(2)), rat_div(scaled, rat_int(2)));
            &&& rat_eq(off, rat_div(rat_sub(span, scaled), rat_int(2)))
            &&& rat_le(rat_int(0), off)
            &&& rat_le(rat_add(off, scaled), span)
        }),
{
    let off = rat_sub(rat_div(span, rat_int(2)), rat_div(scaled, rat_int(2)));
    let d2 = rat_div(rat_sub(span, scaled), rat_int(2));
    lemma_rat_half_diff(span, scaled);
    lemma_rat_ops_wf(span, scaled);
    assert(rat_wf(d2));
    lemma_mul_pos(span.d * 2, scaled.d * 2);
    assert(rat_wf(off));
    assert(rat_le(rat_int(0), rat_sub(span, scaled)));
    lemma_rat_half_nonneg(rat_sub(span, scaled));
    lemma_rat_eq_sym(off, d2);
    lemma_rat_le_congr(rat_int(0), d2, rat_int(0), off);
    lemma_rat_center_fits(span, scaled);
    lemma_rat_ops_wf(d2, scaled);
    lemma_rat_ops_wf(off, scaled);
    lemma_rat_add_congr(d2, scaled, off, scaled);
    lemma_rat_le_congr(rat_add(d2, scaled), span, rat_add(off, scaled), span);
}

/// Fit correctness: for positive image and usable-area dimensions whose
/// letterbox scale lies in the band, the fitted image rectangle lies
/// inside the usable area, touches it exactly on the constraining axis,
/// and is centred on both axes.
pub proof fn lemma_fit_contains(image: V2, container: V2, band: Rat)
    requires
        v2_wf(image),
        v2_wf(container),
        rat_wf(band),
        rat_lt(rat_int(0), image.x),
        rat_lt(rat_int(0), image.y),
        rat_lt(rat_int(0), container.x),
        rat_lt(rat_int(0), usable_h(container, band)),
        in_band(fit_scale(image, container, band)),
    ensures
        ({
            let t = fit_spec(image, container, band);
            let s = fit_scale(image, container, band);
            let sw = rat_mul(image.x, s);
            let sh = rat_mul(image.y, s);
            let uh = usable_h(container, band);
            &&& rat_le(rat_int(0), t.off.x)
            &&& rat_le(rat_int(0), t.off.y)
            &&& rat_le(rat_add(t.off.x, sw), container.x)
            &&& rat_le(rat_add(t.off.y, sh), uh)
            &&& (rat_eq(rat_add(t.off.x, sw), container.x)
                || rat_eq(rat_add(t.off.y, sh), uh))
            &&& rat_eq(t.off.x, rat_div(rat_sub(container.x, sw), rat_int(2)))
            &&& rat_eq(t.off.y, rat_div(rat_sub(uh, sh), rat_int(2)))
        }),
{
    let uh = usable_h(container, band);
    let s = fit_scale(image, container, band);
    let sw = rat_mul(image.x, s);
    let sh = rat_mul(image.y, s);
    lemma_rat_ops_wf(container.y, band);
    lemma_rat_pos_num(image.x);
    lemma_rat_pos_num(image.y);
    lemma_rat_pos_num(container.x);
    lemma_rat_pos_num(uh);
    if fit_wider(image, container, band) {
        // widths match: the scale is cw / ix
        lemma_mul_pos(container.x.d, image.x.n);
        assert(rat_wf(s));
        lemma_rat_ops_wf(image.x, s);
        lemma_rat_ops_wf(image.y, s);
        lemma_rat_mul_div_cancel(container.x, image.x);
        lemma_rat_cross(container.x, uh, image.x, image.y);
        // x axis: zero offset, and the scaled width is the whole width
        lemma_rat_add_zero(sw, rat_int(0));
        lemma_rat_ops_wf(rat_int(0), sw);
        lemma_rat_eq_trans(rat_add(rat_int(0), sw), sw, container.x);
        lemma_rat_eq_sym(rat_add(rat_int(0), sw), container.x);
        lemma_rat_le_congr(container.x, container.x, rat_add(rat_int(0), sw), container.x);
        assert(rat_eq(rat_int(0), rat_div(rat_sub(container.x, sw), rat_int(2))));
        // y axis: centred in the leftover height, stored in lowest terms
        lemma_fit_axis(uh, sh);
        let rawy = rat_sub(rat_div(uh, rat_int(2)), rat_div(sh, rat_int(2)));
        lemma_rat_ops_wf(rat_div(uh, rat_int(2)), rat_div(sh, rat_int(2)));
        lemma_rat_norm(rawy);
        lemma_rat_le_congr(rat_int(0), rawy, rat_int(0), rat_norm(rawy));
        lemma_rat_ops_wf(rat_norm(rawy), sh);
        lemma_rat_ops_wf(rawy, sh);
        lemma_rat_add_congr(rat_norm(rawy), sh, rawy, sh);
        lemma_rat_le_congr(rat_add(rawy, sh), uh, rat_add(rat_norm(rawy), sh), uh);
        lemma_rat_ops_wf(uh, sh);
        lemma_rat_eq_trans(rat_norm(rawy), rawy, rat_div(rat_sub(uh, sh), rat_int(2)));
    } else {
        // heights match: the scale is uh / iy
        lemma_mul_pos(uh.d, image.y.n);
        assert(rat_wf(s));
        lemma_rat_ops_wf(image.x, s);
        lemma_rat_ops_wf(image.y, s);
        lemma_rat_mul_div_cancel(uh, image.y);
        lemma_rat_cross_taller(container.x, uh, image.x, image.y);
        // y axis: zero offset, and the scaled height is the whole height
        lemma_rat_add_zero(sh, rat_int(0));
        lemma_rat_ops_wf(rat_int(0), sh);
        lemma_rat_eq_trans(rat_add(rat_int(0), sh), sh, uh);
        lemma_rat_eq_sym(rat_add(rat_int(0), sh), uh);
        lemma_rat_le_congr(uh, uh, rat_add(rat_int(0), sh), uh);
        assert(rat_eq(rat_int(0), rat_div(rat_sub(uh, sh), rat_int(2))));
        // x axis: centred in the leftover width, stored in lowest terms
        lemma_fit_axis(container.x, sw);
        let rawx = rat_sub(rat_div(container.x, rat_int(2)), rat_div(sw, rat_int(2)));
        lemma_rat_ops_wf(rat_div(container.x, rat_int(2)), rat_div(sw, rat_int(2)));
        lemma_rat_norm(rawx);
        lemma_rat_le_congr(rat_int(0), rawx, rat_int(0), rat_norm(rawx));
        lemma_rat_ops_wf(rat_norm(rawx), sw);
        lemma_rat_ops_wf(rawx, sw);
        lemma_rat_add_congr(rat_norm(rawx), sw, rawx, sw);
        lemma_rat_le_congr(rat_add(rawx, sw), container.x, rat_add(rat_norm(rawx), sw),
            container.x);
        lemma_rat_ops_wf(container.x, sw);
        lemma_rat_eq_trans(rat_norm(rawx), rawx, rat_div(rat_sub(container.x, sw), rat_int(2)));
    }
}

/// The zoom-step fixed point: for every well-formed transform and step
/// factor whose stepped scale stays in the band, the image point that
/// sat at the centre of the usable area before the step maps back
/// exactly onto that centre after it.
pub proof fn lemma_zoom_step_anchors_center(t: TransformV, container: V2, band: Rat, factor: Rat)
    requires
        t_wf(t),
        v2_wf(container),
        rat_wf(band),
        rat_wf(factor),
        in_band(rat_div(factor, rat_div(rat_int(1), t.mat.a))),
    ensures
        ({
            let t2 = zoom_step_spec(t, container, band, factor);
            let cc = usable_center(container, band);
            let p = s2i_spec(t, cc);
            &&& rat_eq(t2.mat.a, rat_mul(factor, t.mat.a))
            &&& rat_eq(i2s_spec(t2, p).x, cc.x)
            &&& rat_eq(i2s_spec(t2, p).y, cc.y)
        }),
{
    let s = t.mat.a;
    let i = rat_inv(s);
    let osf = rat_div(rat_int(1), s);
    let nsf = rat_div(factor, osf);
    lemma_in_band_pos(s);
    lemma_rat_mul_inv(s);
    assert(osf == i);
    assert(rat_inv(osf) == s);
    assert(nsf == rat_mul(factor, s));
    let s1 = rat_mul(rat_int(1), nsf);
    assert(s1 == nsf);
    lemma_rat_ops_wf(factor, s);
    lemma_rat_norm(s1);
    let s2 = rat_norm(s1);
    lemma_in_band_pos(nsf);
    lemma_rat_eq_pos(nsf, s2);
    let mat2 = m2_diag(s2);

    let cc = usable_center(container, band);
    lemma_rat_ops_wf(container.y, band);
    assert(v2_wf(cc));
    let w = v2_sub(cc, t.off);
    lemma_rat_ops_wf(cc.x, t.off.x);
    lemma_rat_ops_wf(cc.y, t.off.y);
    let p = m2_mul_vec(m2_inverse(t.mat), w);
    lemma_diag_inv_apply(t.mat, w);

    // the pulled-back offset term is (cc - off) scaled by 1/s
    let pulled = v2_add(
        v2_mul(v2_neg(t.off), v2_single(osf)),
        v2_mul(cc, v2_single(osf)),
    );
    lemma_rat_neg_dist(t.off.x, cc.x, osf);
    lemma_rat_neg_dist(t.off.y, cc.y, osf);
    lemma_rat_ops_wf(t.off.x, t.off.x);
    lemma_rat_ops_wf(t.off.y, t.off.y);
    lemma_rat_ops_wf(rat_neg(t.off.x), osf);
    lemma_rat_ops_wf(rat_neg(t.off.y), osf);
    lemma_rat_ops_wf(cc.x, osf);
    lemma_rat_ops_wf(cc.y, osf);
    lemma_rat_ops_wf(rat_mul(rat_neg(t.off.x), osf), rat_mul(cc.x, osf));
    lemma_rat_ops_wf(rat_mul(rat_neg(t.off.y), osf), rat_mul(cc.y, osf));
    lemma_rat_ops_wf(w.x, i);
    lemma_rat_ops_wf(w.y, i);
    // pulled == w * (1/s), component-wise

    // the term scaled back up cancels to factor * w
    let qx = rat_mul(factor, w.x);
    let qy = rat_mul(factor, w.y);
    lemma_rat_ops_wf(factor, w.x);
    lemma_rat_ops_wf(factor, w.y);
    lemma_rat_ops_wf(pulled.x, nsf);
    lemma_rat_ops_wf(pulled.y, nsf);
    lemma_rat_ops_wf(rat_mul(w.x, i), nsf);
    lemma_rat_ops_wf(rat_mul(w.y, i), nsf);
    lemma_rat_mul_congr(pulled.x, nsf, rat_mul(w.x, i), nsf);
    lemma_rat_mul_congr(pulled.y, nsf, rat_mul(w.y, i), nsf);
    assert((w.x.n * i.n) * (factor.n * s.n) == (factor.n * w.x.n) * (s.n * i.n))
        by (nonlinear_arith);
    assert((w.x.d * i.d) * (factor.d * s.d) == (factor.d * w.x.d) * (s.d * i.d))
        by (nonlinear_arith);
    assert((w.y.n * i.n) * (factor.n * s.n) == (factor.n * w.y.n) * (s.n * i.n))
        by (nonlinear_arith);
    assert((w.y.d * i.d) * (factor.d * s.d) == (factor.d * w.y.d) * (s.d * i.d))
        by (nonlinear_arith);
    assert(rat_mul(rat_mul(w.x, i), rat_mul(factor, s)) == rat_mul(qx, rat_mul(s, i)));
    assert(rat_mul(rat_mul(w.y, i), rat_mul(factor, s)) == rat_mul(qy, rat_mul(s, i)));
    lemma_rat_ops_wf(s, i);
    lemma_rat_ops_wf(qx, rat_mul(s, i));
    lemma_rat_ops_wf(qy, rat_mul(s, i));
    lemma_rat_mul_congr(qx, rat_mul(s, i), qx, rat_int(1));
    lemma_rat_mul_congr(qy, rat_mul(s, i), qy, rat_int(1));
    assert(rat_mul(qx, rat_int(1)) == qx)
        by { crate::rat_laws::lemma_rat_mul_one(qx); }
    assert(rat_mul(qy, rat_int(1)) == qy)
        by { crate::rat_laws::lemma_rat_mul_one(qy); }
    lemma_rat_eq_trans(rat_mul(pulled.x, nsf), rat_mul(qx, rat_mul(s, i)), qx);
    lemma_rat_eq_trans(rat_mul(pulled.y, nsf), rat_mul(qy, rat_mul(s, i)), qy);

    // the scaled pre-image point is the same factor * w
    lemma_diag_mul_vec(mat2, p);
    lemma_rat_ops_wf(s2, p.x);
    lemma_rat_ops_wf(s2, p.y);
    lemma_rat_ops_wf(nsf, p.x);
    lemma_rat_ops_wf(nsf, p.y);
    lemma_rat_mul_congr(s2, p.x, nsf, p.x);
    lemma_rat_mul_congr(s2, p.y, nsf, p.y);
    lemma_rat_mul_congr(nsf, p.x, nsf, rat_mul(w.x, i));
    lemma_rat_mul_congr(nsf, p.y, nsf, rat_mul(w.y, i));
    assert((factor.n * s.n) * (w.x.n * i.n) == (factor.n * w.x.n) * (s.n * i.n))
        by (nonlinear_arith);
    assert((factor.d * s.d) * (w.x.d * i.d) == (factor.d * w.x.d) * (s.d * i.d))
        by (nonlinear_arith);
    assert((factor.n * s.n) * (w.y.n * i.n) == (factor.n * w.y.n) * (s.n * i.n))
        by (nonlinear_arith);
    assert((factor.d * s.d) * (w.y.d * i.d) == (factor.d * w.y.d) * (s.d * i.d))
        by (nonlinear_arith);
    assert(rat_mul(rat_mul(factor, s), rat_mul(w.x, i)) == rat_mul(qx, rat_mul(s, i)));
    assert(rat_mul(rat_mul(factor, s), rat_mul(w.y, i)) == rat_mul(qy, rat_mul(s, i)));
    lemma_rat_ops_wf(nsf, rat_mul(w.x, i));
    lemma_rat_ops_wf(nsf, rat_mul(w.y, i));
    lemma_rat_eq_trans(rat_mul(s2, p.x), rat_mul(nsf, p.x), rat_mul(nsf, rat_mul(w.x, i)));
    lemma_rat_eq_trans(rat_mul(s2, p.y), rat_mul(nsf, p.y), rat_mul(nsf, rat_mul(w.y, i)));
    lemma_rat_eq_trans(rat_mul(s2, p.x), rat_mul(nsf, rat_mul(w.x, i)), qx);
    lemma_rat_eq_trans(rat_mul(s2, p.y), rat_mul(nsf, rat_mul(w.y, i)), qy);
    lemma_rat_eq_trans(m2_mul_vec(mat2, p).x, rat_mul(s2, p.x), qx);
    lemma_rat_eq_trans(m2_mul_vec(mat2, p).y, rat_mul(s2, p.y), qy);

    // the stored offset is cc - factor * w, so the sum lands on cc
    let off_raw = v2_sub(cc, v2_mul(pulled, v2_single(nsf)));
    lemma_rat_ops_wf(cc.x, rat_mul(pulled.x, nsf));
    lemma_rat_ops_wf(cc.y, rat_mul(pulled.y, nsf));
    lemma_rat_norm(off_raw.x);
    lemma_rat_norm(off_raw.y);
    lemma_rat_sub_congr(cc.x, rat_mul(pulled.x, nsf), cc.x, qx);
    lemma_rat_sub_congr(cc.y, rat_mul(pulled.y, nsf), cc.y, qy);
    lemma_rat_ops_wf(cc.x, qx);
    lemma_rat_ops_wf(cc.y, qy);
    lemma_rat_eq_trans(rat_norm(off_raw.x), off_raw.x, rat_sub(cc.x, qx));
    lemma_rat_eq_trans(rat_norm(off_raw.y), off_raw.y, rat_sub(cc.y, qy));

    lemma_rat_ops_wf(m2_mul_vec(mat2, p).x, rat_norm(off_raw.x));
    lemma_rat_ops_wf(m2_mul_vec(mat2, p).y, rat_norm(off_raw.y));
    lemma_rat_ops_wf(qx, rat_sub(cc.x, qx));
    lemma_rat_ops_wf(qy, rat_sub(cc.y, qy));
    lemma_rat_add_congr(m2_mul_vec(mat2, p).x, rat_norm(off_raw.x), qx, rat_sub(cc.x, qx));
    lemma_rat_add_congr(m2_mul_vec(mat2, p).y, rat_norm(off_raw.y), qy, rat_sub(cc.y, qy));
    lemma_rat_add_sub(qx, cc.x);
    lemma_rat_add_sub(qy, cc.y);
    lemma_rat_eq_trans(
        rat_add(m2_mul_vec(mat2, p).x, rat_norm(off_raw.x)),
        rat_add(qx, rat_sub(cc.x, qx)),
        cc.x,
    );
    lemma_rat_eq_trans(
        rat_add(m2_mul_vec(mat2, p).y, rat_norm(off_raw.y)),
        rat_add(qy, rat_sub(cc.y, qy)),
        cc.y,
    );
}

/// One zoom request: either a toolbar zoom step or a wheel pulse.  A
/// request that does not apply (out of band, or out of the `i64` range)
/// leaves the transform unchanged, exactly as the executable operations
/// do.
pub ghost enum ZoomOp {
    Step { container: V2, band: Rat, factor: Rat },
    Pulse { magnitude: Rat, cursor: V2 },
}

/// The transform after one zoom request.
pub open spec fn zoom_op_step(t: TransformV, op: ZoomOp) -> TransformV {
    match op {
        ZoomOp::Step { container, band, factor } => {
            if zoom_step_ok(t, container, band, factor) {
                zoom_step_spec(t, container, band, factor)
            } else {
                t
            }
        },
        ZoomOp::Pulse { magnitude, cursor } => {
            if czoom_ok(t, magnitude, cursor) {
                czoom_spec(t, magnitude, cursor)
            } else {
                t
            }
        },
    }
}

/// The transform after a whole sequence of zoom requests.
pub open spec fn run_zoom_ops(t: TransformV, ops: Seq<ZoomOp>) -> TransformV
    decreases ops.len(),
{
    if ops.len() == 0 {
        t
    } else {
        run_zoom_ops(zoom_op_step(t, ops[0]), ops.subrange(1, ops.len() as int))
    }
}

/// The pairs carried by a zoom request denote rational numbers.
pub open spec fn zoom_op_wf(op: ZoomOp) -> bool {
    match op {
        ZoomOp::Step { container, band, factor } => {
            v2_wf(container) && rat_wf(band) && rat_wf(factor)
        },
        ZoomOp::Pulse { magnitude, cursor } => rat_wf(magnitude) && v2_wf(cursor),
    }
}

/// One zoom request keeps the stored scale well formed and in the band.
proof fn lemma_zoom_op_band(t: TransformV, op: ZoomOp)
    requires
        rat_wf(t.mat.a),
        in_band(t.mat.a),
        zoom_op_wf(op),
    ensures
        rat_wf(zoom_op_step(t, op).mat.a),
        in_band(zoom_op_step(t, op).mat.a),
{
    lemma_in_band_pos(t.mat.a);
    match op {
        ZoomOp::Step { container, band, factor } => {
            if zoom_step_ok(t, container, band, factor) {
                let osf = rat_div(rat_int(1), t.mat.a);
                let nsf = rat_div(factor, osf);
                assert(t.mat.a.n > 0);
                assert(rat_inv(t.mat.a) == (Rat { n: t.mat.a.d, d: t.mat.a.n }));
                assert(osf.d == 1 * t.mat.a.n);
                assert(rat_wf(osf));
                assert(osf.n == 1 * t.mat.a.d);
                assert(osf.n > 0);
                lemma_mul_pos(factor.d, osf.n);
                assert(rat_wf(nsf));
                let s1 = rat_mul(rat_int(1), nsf);
                assert(s1 == nsf);
                lemma_rat_norm(s1);
                lemma_in_band_congr(s1, rat_norm(s1));
            }
        },
        ZoomOp::Pulse { magnitude, cursor } => {
            if czoom_ok(t, magnitude, cursor) {
                let f = wheel_factor(magnitude);
                assert(f.d == 1 * (magnitude.d * 500));
                assert(f.d > 0);
                lemma_mul_pos(t.mat.a.d, f.d);
                let rns = rat_mul(t.mat.a, f);
                assert(rat_wf(rns));
                lemma_rat_norm(rns);
                lemma_in_band_congr(rns, rat_norm(rns));
            }
        },
    }
}

/// Scale band invariant: no sequence of zoom steps and wheel pulses ever
/// drives the stored scale out of `[1/100, 100]`.
pub proof fn lemma_scale_band(t: TransformV, ops: Seq<ZoomOp>)
    requires
        rat_wf(t.mat.a),
        in_band(t.mat.a),
        forall|i: int| 0 <= i < ops.len() ==> zoom_op_wf(#[trigger] ops[i]),
    ensures
        rat_wf(run_zoom_ops(t, ops).mat.a),
        in_band(run_zoom_ops(t, ops).mat.a),
    decreases ops.len(),
{
    if ops.len() > 0 {
        let t1 = zoom_op_step(t, ops[0]);
        lemma_zoom_op_band(t, ops[0]);
        lemma_scale_band(t1, ops.subrange(1, ops.len() as int));
    }
}

/// One event of a pan interaction: a pointer move or a redraw tick.
pub ghost enum PanEvent {
    Move(V2),
    Tick,
}

/// The engine state after one pan event.
pub open spec fn pan_step(e: EngineV, ev: PanEvent) -> EngineV {
    match ev {
        PanEvent::Move(p) => EngineV {
            pending: pend_move(e.pending, p),
            transform: e.transform,
        },
        PanEvent::Tick => tick_spec(e),
    }
}

/// The engine state after a whole sequence of pan events.
pub open spec fn run_pan(e: EngineV, evs: Seq<PanEvent>) -> EngineV
    decreases evs.len(),
{
    if evs.len() == 0 {
        e
    } else {
        run_pan(pan_step(e, evs[0]), evs.subrange(1, evs.len() as int))
    }
}

/// While a drag is live, pointer moves and redraw ticks never touch the
/// transform, and the drag keeps its starting position.
pub proof fn lemma_pan_preview(e: EngineV, evs: Seq<PanEvent>)
    requires
        is_live_drag(e.pending),
    ensures
        run_pan(e, evs).transform == e.transform,
        is_live_drag(run_pan(e, evs).pending),
        drag_start(run_pan(e, evs).pending) == drag_start(e.pending),
    decreases evs.len(),
{
    if evs.len() > 0 {
        let e1 = pan_step(e, evs[0]);
        assert(e1.transform == e.transform);
        assert(is_live_drag(e1.pending));
        assert(drag_start(e1.pending) == drag_start(e.pending));
        lemma_pan_preview(e1, evs.subrange(1, evs.len() as int));
    }
}

/// Pan idempotence under commit: any number of pointer moves and
/// preview ticks, followed by a pointer release and one final tick,
/// leaves the offset equal to the original offset plus the net
/// displacement `current - start` of the drag -- applied exactly once,
/// never the sum of the intermediate previews.
pub proof fn lemma_pan_commit(e: EngineV, evs: Seq<PanEvent>)
    requires
        is_live_drag(e.pending),
    ensures
        ({
            let run = run_pan(e, evs);
            let done = pan_step(
                EngineV { pending: pend_up(run.pending), transform: run.transform },
                PanEvent::Tick,
            );
            &&& done.pending is Idle
            &&& done.transform.mat == e.transform.mat
            &&& done.transform.off == commit_offset(
                e.transform.off,
                drag_start(e.pending),
                drag_current(run.pending),
            )
        }),
{
    lemma_pan_preview(e, evs);
}

} // verus!
