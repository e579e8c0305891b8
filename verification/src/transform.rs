//! The viewport transform: the mapping
//! `screenPoint = scale * imagePoint + offset`
//! together with the fit, centering, pan and zoom operations that evolve
//! it.
//!
//! The transform always stores a uniform-scale diagonal matrix whose
//! scale lies in the band `[1/100, 100]`; an operation that would push
//! the scale outside the band, or would produce a pair outside the `i64`
//! range, leaves the transform unchanged (the attempt is discarded, not
//! clamped to the boundary).  Each operation reports through its result
//! and its contract exactly when it applied and exactly which transform
//! it produced.

use vstd::prelude::*;

use crate::rat::{
    add_ok, div_ok, in_band, inv_ok, lemma_mul_pos, lemma_rat_norm, mul_ok, neg_ok, rat_add,
    rat_div, rat_int, rat_lt, rat_mul, rat_neg, rat_norm, rat_sub, rat_wf, sub_ok, Frac, Rat,
};
use crate::rat_laws::lemma_in_band_congr;
use crate::types::{
    m2_inverse, m2_inverse_ok, m2_mul_vec, m2_mul_vec_ok, m2_uniform, v2_add, v2_add_ok, v2_div,
    v2_mul, v2_mul_ok, v2_neg, v2_neg_ok, v2_norm, v2_single, v2_sub, v2_sub_ok, v2_wf,
    Matrix2x2, Vec2D, M2, V2,
};

verus! {

/// The mathematical value of a viewport transform.
pub ghost struct TransformV {
    pub mat: M2,
    pub off: V2,
}

/// The uniform-scale diagonal matrix `[[s, 0], [0, s]]`.
pub open spec fn m2_diag(s: Rat) -> M2 {
    M2 { a: s, b: rat_int(0), c: rat_int(0), d: s }
}

/// A resting transform is well formed when its matrix is a uniform-scale
/// diagonal matrix whose scale lies in the band, and all pairs denote
/// rational numbers.
pub open spec fn t_wf(t: TransformV) -> bool {
    m2_uniform(t.mat) && in_band(t.mat.a) && v2_wf(t.off)
}

/// Where a point in image space lands on the screen.
pub open spec fn i2s_spec(t: TransformV, p: V2) -> V2 {
    v2_add(m2_mul_vec(t.mat, p), t.off)
}

pub open spec fn i2s_ok(t: TransformV, p: V2) -> bool {
    m2_mul_vec_ok(t.mat, p) && v2_add_ok(m2_mul_vec(t.mat, p), t.off)
}

/// Which point in image space sits under a screen point.
pub open spec fn s2i_spec(t: TransformV, q: V2) -> V2 {
    m2_mul_vec(m2_inverse(t.mat), v2_sub(q, t.off))
}

pub open spec fn s2i_ok(t: TransformV, q: V2) -> bool {
    &&& v2_sub_ok(q, t.off)
    &&& m2_inverse_ok(t.mat)
    &&& m2_mul_vec_ok(m2_inverse(t.mat), v2_sub(q, t.off))
}

/// The height of the usable area: the container minus the reserved band.
pub open spec fn usable_h(container: V2, band: Rat) -> Rat {
    rat_sub(container.y, band)
}

/// The centre of the usable area.
pub open spec fn usable_center(container: V2, band: Rat) -> V2 {
    V2 {
        x: rat_div(container.x, rat_int(2)),
        y: rat_div(usable_h(container, band), rat_int(2)),
    }
}

pub open spec fn usable_center_ok(container: V2, band: Rat) -> bool {
    &&& sub_ok(container.y, band)
    &&& div_ok(container.x, rat_int(2))
    &&& div_ok(usable_h(container, band), rat_int(2))
}

/// The image is relatively wider than the usable area, so a fit matches
/// the widths; otherwise it matches the heights.
pub open spec fn fit_wider(image: V2, container: V2, band: Rat) -> bool {
    rat_lt(
        rat_div(container.x, usable_h(container, band)),
        rat_div(image.x, image.y),
    )
}

/// The letterbox scale a fit asks for, before the band check.
pub open spec fn fit_scale(image: V2, container: V2, band: Rat) -> Rat {
    if fit_wider(image, container, band) {
        rat_div(container.x, image.x)
    } else {
        rat_div(usable_h(container, band), image.y)
    }
}

/// The centering offset of a fit: zero on the constraining axis, half of
/// the leftover space on the other, stored in lowest terms.
pub open spec fn fit_offset(image: V2, container: V2, band: Rat) -> V2 {
    let s = fit_scale(image, container, band);
    if fit_wider(image, container, band) {
        V2 {
            x: rat_int(0),
            y: rat_norm(rat_sub(
                rat_div(usable_h(container, band), rat_int(2)),
                rat_div(rat_mul(image.y, s), rat_int(2)),
            )),
        }
    } else {
        V2 {
            x: rat_norm(rat_sub(
                rat_div(container.x, rat_int(2)),
                rat_div(rat_mul(image.x, s), rat_int(2)),
            )),
            y: rat_int(0),
        }
    }
}

/// The transform a fit produces: the centering offset always, and the
/// letterbox scale only when it lies in the band (otherwise the fresh
/// transform keeps scale one, exactly as a rejected scale change does).
pub open spec fn fit_spec(image: V2, container: V2, band: Rat) -> TransformV {
    let s = rat_mul(rat_int(1), fit_scale(image, container, band));
    TransformV {
        mat: if in_band(s) { m2_diag(rat_norm(s)) } else { m2_diag(rat_int(1)) },
        off: fit_offset(image, container, band),
    }
}

pub open spec fn fit_ok(image: V2, container: V2, band: Rat) -> bool {
    let uh = usable_h(container, band);
    let s = fit_scale(image, container, band);
    &&& sub_ok(container.y, band)
    &&& div_ok(container.x, uh)
    &&& div_ok(image.x, image.y)
    &&& if fit_wider(image, container, band) {
        &&& div_ok(container.x, image.x)
        &&& mul_ok(image.y, s)
        &&& div_ok(uh, rat_int(2))
        &&& div_ok(rat_mul(image.y, s), rat_int(2))
        &&& sub_ok(rat_div(uh, rat_int(2)), rat_div(rat_mul(image.y, s), rat_int(2)))
    } else {
        &&& div_ok(uh, image.y)
        &&& mul_ok(image.x, s)
        &&& div_ok(container.x, rat_int(2))
        &&& div_ok(rat_mul(image.x, s), rat_int(2))
        &&& sub_ok(rat_div(container.x, rat_int(2)), rat_div(rat_mul(image.x, s), rat_int(2)))
    }
}

/// The transform `recenter` and `realSize` produce: scale exactly one,
/// with the image centre placed on the usable-area centre.  The two user
/// commands deliberately share this one meaning.
pub open spec fn recenter_spec(image: V2, container: V2, band: Rat) -> TransformV {
    TransformV {
        mat: m2_diag(rat_int(1)),
        off: v2_norm(v2_sub(
            usable_center(container, band),
            V2 { x: rat_div(image.x, rat_int(2)), y: rat_div(image.y, rat_int(2)) },
        )),
    }
}

pub open spec fn recenter_ok(image: V2, container: V2, band: Rat) -> bool {
    &&& usable_center_ok(container, band)
    &&& div_ok(image.x, rat_int(2))
    &&& div_ok(image.y, rat_int(2))
    &&& v2_sub_ok(
        usable_center(container, band),
        V2 { x: rat_div(image.x, rat_int(2)), y: rat_div(image.y, rat_int(2)) },
    )
}

/// The scale a zoom step asks for: the step factor divided by the
/// reciprocal of the current scale.
pub open spec fn zoom_step_scale(t: TransformV, factor: Rat) -> Rat {
    rat_div(factor, rat_div(rat_int(1), t.mat.a))
}

/// The transform a zoom step produces: the stepped scale, with the
/// offset solved so that the usable-area centre is a fixed point of the
/// mapping.
pub open spec fn zoom_step_spec(t: TransformV, container: V2, band: Rat, factor: Rat)
    -> TransformV {
    let osf = rat_div(rat_int(1), t.mat.a);
    let nsf = rat_div(factor, osf);
    let cc = usable_center(container, band);
    let pulled = v2_add(v2_mul(v2_neg(t.off), v2_single(osf)), v2_mul(cc, v2_single(osf)));
    TransformV {
        mat: m2_diag(rat_norm(rat_mul(rat_int(1), nsf))),
        off: v2_norm(v2_sub(cc, v2_mul(pulled, v2_single(nsf)))),
    }
}

pub open spec fn zoom_step_ok(t: TransformV, container: V2, band: Rat, factor: Rat) -> bool {
    let osf = rat_div(rat_int(1), t.mat.a);
    let nsf = rat_div(factor, osf);
    let cc = usable_center(container, band);
    let t1 = v2_mul(v2_neg(t.off), v2_single(osf));
    let t2 = v2_mul(cc, v2_single(osf));
    let pulled = v2_add(t1, t2);
    &&& div_ok(rat_int(1), t.mat.a)
    &&& div_ok(factor, osf)
    &&& in_band(nsf)
    &&& usable_center_ok(container, band)
    &&& v2_neg_ok(t.off)
    &&& v2_mul_ok(v2_neg(t.off), v2_single(osf))
    &&& v2_mul_ok(cc, v2_single(osf))
    &&& v2_add_ok(t1, t2)
    &&& v2_mul_ok(pulled, v2_single(nsf))
    &&& v2_sub_ok(cc, v2_mul(pulled, v2_single(nsf)))
}

/// The zoom factor a wheel event of the given magnitude asks for:
/// `1 + (-magnitude / 500)`.
pub open spec fn wheel_factor(m: Rat) -> Rat {
    rat_add(rat_int(1), rat_div(rat_neg(m), rat_int(500)))
}

/// The transform a cursor-anchored zoom produces.  The pre-zoom image
/// point under the cursor is taken with the old scale, the post-zoom
/// point with the new scale and the unchanged offset, and the offset is
/// then corrected by the screen-space difference of the two, so that the
/// same image point stays under the cursor.
pub open spec fn czoom_spec(t: TransformV, m: Rat, cursor: V2) -> TransformV {
    let f = wheel_factor(m);
    let ns = rat_norm(rat_mul(t.mat.a, f));
    let mat2 = M2 { a: ns, b: t.mat.b, c: t.mat.c, d: ns };
    let w = v2_sub(cursor, t.off);
    let pre = v2_norm(m2_mul_vec(m2_inverse(t.mat), w));
    let post = v2_norm(m2_mul_vec(m2_inverse(mat2), w));
    TransformV {
        mat: mat2,
        off: v2_norm(v2_add(t.off, m2_mul_vec(mat2, v2_sub(post, pre)))),
    }
}

pub open spec fn czoom_ok(t: TransformV, m: Rat, cursor: V2) -> bool {
    let f = wheel_factor(m);
    let ns = rat_norm(rat_mul(t.mat.a, f));
    let mat2 = M2 { a: ns, b: t.mat.b, c: t.mat.c, d: ns };
    let w = v2_sub(cursor, t.off);
    let pre = v2_norm(m2_mul_vec(m2_inverse(t.mat), w));
    let post = v2_norm(m2_mul_vec(m2_inverse(mat2), w));
    &&& neg_ok(m)
    &&& div_ok(rat_neg(m), rat_int(500))
    &&& add_ok(rat_int(1), rat_div(rat_neg(m), rat_int(500)))
    &&& mul_ok(t.mat.a, f)
    &&& in_band(rat_mul(t.mat.a, f))
    &&& v2_sub_ok(cursor, t.off)
    &&& m2_inverse_ok(t.mat)
    &&& m2_mul_vec_ok(m2_inverse(t.mat), w)
    &&& m2_inverse_ok(mat2)
    &&& m2_mul_vec_ok(m2_inverse(mat2), w)
    &&& v2_sub_ok(post, pre)
    &&& m2_mul_vec_ok(mat2, v2_sub(post, pre))
    &&& v2_add_ok(t.off, m2_mul_vec(mat2, v2_sub(post, pre)))
}

/// The viewport transform of the currently displayed image: a uniform
/// scale and a screen-space offset.
#[derive(Clone, Copy, Debug, PartialEq, Eq, Structural)]
pub struct ImageTransformation {
    pub affine_matrix: Matrix2x2,
    pub offset: Vec2D,
}

impl View for ImageTransformation {
    type V = TransformV;

    open spec fn view(&self) -> TransformV {
        TransformV { mat: self.affine_matrix@, off: self.offset@ }
    }
}

impl ImageTransformation {
    /// The matrix is a uniform-scale diagonal matrix with an in-band
    /// scale, and every pair denotes a rational number.
    pub open spec fn wf(&self) -> bool {
        t_wf(self@)
    }

    /// The resting transform of a freshly loaded image: scale one, offset
    /// zero.
    pub fn new() -> (r: ImageTransformation)
        ensures
            r.wf(),
            r@.mat == m2_diag(rat_int(1)),
            r@.off == (V2 { x: rat_int(0), y: rat_int(0) }),
    {
        ImageTransformation {
            affine_matrix: Matrix2x2::new(),
            offset: Vec2D::new(),
        }
    }

    /// The stored uniform scale factor.
    pub fn get_scale(&self) -> (r: Frac)
        ensures
            r == self.affine_matrix.a,
    {
        self.affine_matrix.get_scale()
    }

    /// Multiplies the stored scale in place, exactly as
    /// [`Matrix2x2::set_scale`] does: a new scale outside the band, or
    /// outside the `i64` range, is discarded; an accepted one is stored
    /// in lowest terms.
    pub fn set_scale(&mut self, scale_factor: Frac)
        requires
            old(self).wf(),
            scale_factor.wf(),
        ensures
            final(self).wf(),
            final(self).offset == old(self).offset,
            ({
                let ns = rat_mul(old(self)@.mat.a, scale_factor@);
                if in_band(ns) && crate::rat::rat_fits(ns) {
                    final(self)@.mat == (M2 {
                        a: rat_norm(ns),
                        b: old(self)@.mat.b,
                        c: old(self)@.mat.c,
                        d: rat_norm(ns),
                    })
                } else {
                    final(self).affine_matrix == old(self).affine_matrix
                }
            }),
    {
        self.affine_matrix.set_scale(scale_factor);
        proof {
            let ns = rat_mul(old(self)@.mat.a, scale_factor@);
            lemma_mul_pos(old(self)@.mat.a.d, scale_factor@.d);
            if in_band(ns) && crate::rat::rat_fits(ns) {
                lemma_rat_norm(ns);
                lemma_in_band_congr(ns, rat_norm(ns));
            }
        }
    }

    /// Replaces the screen-space offset.
    pub fn set_offset(&mut self, new_offset: Vec2D)
        requires
            old(self).wf(),
            new_offset.wf(),
        ensures
            final(self).wf(),
            final(self).offset == new_offset,
            final(self).affine_matrix == old(self).affine_matrix,
    {
        self.offset = new_offset;
    }

    /// The screen-space offset.
    pub fn get_offset(&self) -> (r: Vec2D)
        ensures
            r == self.offset,
    {
        self.offset
    }

    /// Where the image point `p` lands on the screen; `None` exactly when
    /// an intermediate pair leaves the `i64` range.
    pub fn image_to_screen(&self, p: &Vec2D) -> (r: Option<Vec2D>)
        requires
            self.wf(),
            p.wf(),
        ensures
            r is Some <==> i2s_ok(self@, p@),
            r matches Some(q) ==> q.wf() && q@ == i2s_spec(self@, p@),
    {
        let mapped = match self.affine_matrix.mul_vec(p) {
            None => return None,
            Some(v) => v,
        };
        mapped.add(&self.offset)
    }

    /// Which image point sits under the screen point `q`; `None` exactly
    /// when an intermediate pair leaves the `i64` range.  (The stored
    /// scale is in the band, so the matrix is always invertible; only
    /// overflow can fail.)
    pub fn screen_to_image(&self, q: &Vec2D) -> (r: Option<Vec2D>)
        requires
            self.wf(),
            q.wf(),
        ensures
            r is Some <==> s2i_ok(self@, q@),
            r matches Some(p) ==> p.wf() && p@ == s2i_spec(self@, q@),
    {
        let w = match q.sub(&self.offset) {
            None => return None,
            Some(v) => v,
        };
        let inv = match self.affine_matrix.inverse() {
            None => return None,
            Some(v) => v,
        };
        inv.mul_vec(&w)
    }

    /// The screen-space destination rectangle for one frame: where the
    /// image's origin and far corner land under the stored scale and the
    /// given effective offset (the preview offset during a drag).  The
    /// image-space source rectangle is the whole image, from the origin
    /// to `image`.  `None` exactly when an intermediate pair leaves the
    /// `i64` range.
    pub fn destination_rect(&self, image: &Vec2D, effective_offset: &Vec2D)
        -> (r: Option<(Vec2D, Vec2D)>)
        requires
            self.wf(),
            image.wf(),
            effective_offset.wf(),
        ensures
            ({
                let te = TransformV { mat: self@.mat, off: effective_offset@ };
                let zero = V2 { x: rat_int(0), y: rat_int(0) };
                &&& r is Some <==> i2s_ok(te, zero) && i2s_ok(te, image@)
                &&& r matches Some(p) ==> p.0.wf() && p.1.wf()
                    && p.0@ == i2s_spec(te, zero) && p.1@ == i2s_spec(te, image@)
            }),
    {
        let effective = ImageTransformation {
            affine_matrix: self.affine_matrix,
            offset: *effective_offset,
        };
        let origin = match effective.image_to_screen(&Vec2D::new()) {
            None => return None,
            Some(v) => v,
        };
        let corner = match effective.image_to_screen(image) {
            None => return None,
            Some(v) => v,
        };
        Some((origin, corner))
    }

    /// Computes the resting transform that letterboxes the image inside
    /// the usable area: the aspect ratios decide the constraining axis,
    /// the scale matches that axis, and the offset centres the other.
    /// `None` exactly when an intermediate pair leaves the `i64` range.
    pub fn fit(image: &Vec2D, container: &Vec2D, reserved_band: &Frac)
        -> (r: Option<ImageTransformation>)
        requires
            image.wf(),
            container.wf(),
            reserved_band.wf(),
            rat_lt(rat_int(0), image@.x),
            rat_lt(rat_int(0), image@.y),
            rat_lt(rat_int(0), container@.x),
            rat_lt(rat_int(0), usable_h(container@, reserved_band@)),
        ensures
            r is Some <==> fit_ok(image@, container@, reserved_band@),
            r matches Some(t) ==> t.wf() && t@ == fit_spec(image@, container@, reserved_band@),
    {
        let two = Frac::from_int(2);
        let uh = match container.y.sub(reserved_band) {
            None => return None,
            Some(v) => v,
        };
        let usable_aspect = match container.x.div(&uh) {
            None => return None,
            Some(v) => v,
        };
        let image_aspect = match image.x.div(&image.y) {
            None => return None,
            Some(v) => v,
        };
        let scale_factor: Frac;
        let centering: Vec2D;
        if usable_aspect.lt(&image_aspect) {
            // relatively wider than the usable area: match the widths,
            // centre vertically
            scale_factor = match container.x.div(&image.x) {
                None => return None,
                Some(v) => v,
            };
            let scaled_h = match image.y.mul(&scale_factor) {
                None => return None,
                Some(v) => v,
            };
            let half_uh = match uh.div(&two) {
                None => return None,
                Some(v) => v,
            };
            let half_scaled = match scaled_h.div(&two) {
                None => return None,
                Some(v) => v,
            };
            let cy = match half_uh.sub(&half_scaled) {
                None => return None,
                Some(v) => v,
            };
            centering = Vec2D::from(Frac::from_int(0), cy.reduced());
        } else {
            // relatively taller than the usable area: match the heights,
            // centre horizontally
            scale_factor = match uh.div(&image.y) {
                None => return None,
                Some(v) => v,
            };
            let scaled_w = match image.x.mul(&scale_factor) {
                None => return None,
                Some(v) => v,
            };
            let half_cw = match container.x.div(&two) {
                None => return None,
                Some(v) => v,
            };
            let half_scaled = match scaled_w.div(&two) {
                None => return None,
                Some(v) => v,
            };
            let cx = match half_cw.sub(&half_scaled) {
                None => return None,
                Some(v) => v,
            };
            centering = Vec2D::from(cx.reduced(), Frac::from_int(0));
        }
        let mut t = ImageTransformation::new();
        t.set_offset(centering);
        t.set_scale(scale_factor);
        Some(t)
    }

    /// Computes the resting transform that shows the image at scale one
    /// with its centre on the usable-area centre; `None` exactly when an
    /// intermediate pair leaves the `i64` range.
    pub fn recenter(image: &Vec2D, container: &Vec2D, reserved_band: &Frac)
        -> (r: Option<ImageTransformation>)
        requires
            image.wf(),
            container.wf(),
            reserved_band.wf(),
        ensures
            r is Some <==> recenter_ok(image@, container@, reserved_band@),
            r matches Some(t) ==> t.wf()
                && t@ == recenter_spec(image@, container@, reserved_band@),
    {
        let two = Frac::from_int(2);
        let uh = match container.y.sub(reserved_band) {
            None => return None,
            Some(v) => v,
        };
        let ccx = match container.x.div(&two) {
            None => return None,
            Some(v) => v,
        };
        let ccy = match uh.div(&two) {
            None => return None,
            Some(v) => v,
        };
        let icx = match image.x.div(&two) {
            None => return None,
            Some(v) => v,
        };
        let icy = match image.y.div(&two) {
            None => return None,
            Some(v) => v,
        };
        let container_center = Vec2D::from(ccx, ccy);
        let image_center = Vec2D::from(icx, icy);
        let off = match container_center.sub(&image_center) {
            None => return None,
            Some(v) => v,
        };
        let mut t = ImageTransformation::new();
        t.set_offset(off.reduced());
        Some(t)
    }

    /// Shows the image at its actual pixel size: today this is the same
    /// computation as [`Self::recenter`], kept as a separate entry point
    /// because it is a distinct user-facing command.
    pub fn real_size(image: &Vec2D, container: &Vec2D, reserved_band: &Frac)
        -> (r: Option<ImageTransformation>)
        requires
            image.wf(),
            container.wf(),
            reserved_band.wf(),
        ensures
            r is Some <==> recenter_ok(image@, container@, reserved_band@),
            r matches Some(t) ==> t.wf()
                && t@ == recenter_spec(image@, container@, reserved_band@),
    {
        ImageTransformation::recenter(image, container, reserved_band)
    }

    /// Multiplies the scale by `factor`, anchored at the centre of the
    /// usable area.  Applies, and answers `true`, exactly when the new
    /// scale lies in the band and no intermediate pair leaves the `i64`
    /// range; otherwise the transform is unchanged.
    pub fn zoom_step(&mut self, container: &Vec2D, reserved_band: &Frac, factor: &Frac)
        -> (applied: bool)
        requires
            old(self).wf(),
            container.wf(),
            reserved_band.wf(),
            factor.wf(),
        ensures
            final(self).wf(),
            applied == zoom_step_ok(old(self)@, container@, reserved_band@, factor@),
            applied ==> final(self)@ == zoom_step_spec(
                old(self)@, container@, reserved_band@, factor@),
            !applied ==> *final(self) == *old(self),
    {
        let one = Frac::from_int(1);
        let two = Frac::from_int(2);
        let old_scale_factor = match one.div(&self.affine_matrix.get_scale()) {
            None => return false,
            Some(v) => v,
        };
        let new_scale_factor = match factor.div(&old_scale_factor) {
            None => return false,
            Some(v) => v,
        };
        if !new_scale_factor.is_in_band() {
            return false;
        }
        let uh = match container.y.sub(reserved_band) {
            None => return false,
            Some(v) => v,
        };
        let ccx = match container.x.div(&two) {
            None => return false,
            Some(v) => v,
        };
        let ccy = match uh.div(&two) {
            None => return false,
            Some(v) => v,
        };
        let container_center = Vec2D::from(ccx, ccy);
        let neg_offset = match self.offset.neg() {
            None => return false,
            Some(v) => v,
        };
        let osf_v = Vec2D::from_single(old_scale_factor);
        let t1 = match neg_offset.mul(&osf_v) {
            None => return false,
            Some(v) => v,
        };
        let t2 = match container_center.mul(&osf_v) {
            None => return false,
            Some(v) => v,
        };
        let pulled = match t1.add(&t2) {
            None => return false,
            Some(v) => v,
        };
        let pushed = match pulled.mul(&Vec2D::from_single(new_scale_factor)) {
            None => return false,
            Some(v) => v,
        };
        let new_offset = match container_center.sub(&pushed) {
            None => return false,
            Some(v) => v,
        };
        let mut m = Matrix2x2::new();
        m.set_scale(new_scale_factor);
        self.affine_matrix = m;
        self.offset = new_offset.reduced();
        proof {
            lemma_rat_norm(rat_mul(rat_int(1), new_scale_factor@));
            lemma_in_band_congr(
                rat_mul(rat_int(1), new_scale_factor@),
                rat_norm(rat_mul(rat_int(1), new_scale_factor@)),
            );
        }
        true
    }

    /// Adds `screen_delta` to the offset: panning is one-to-one in screen
    /// pixels, independent of the scale.  Applies, and answers `true`,
    /// exactly when the new offset pairs stay in the `i64` range.
    pub fn apply_pan(&mut self, screen_delta: &Vec2D) -> (applied: bool)
        requires
            old(self).wf(),
            screen_delta.wf(),
        ensures
            final(self).wf(),
            applied == v2_add_ok(old(self)@.off, screen_delta@),
            applied ==> final(self)@ == (TransformV {
                mat: old(self)@.mat,
                off: v2_norm(v2_add(old(self)@.off, screen_delta@)),
            }),
            !applied ==> *final(self) == *old(self),
    {
        match self.offset.add(screen_delta) {
            None => false,
            Some(v) => {
                self.offset = v.reduced();
                true
            },
        }
    }

    /// The cursor-anchored zoom: scales by `1 + (-magnitude / 500)` and
    /// corrects the offset so the image point under the cursor stays
    /// under the cursor.  Applies, and answers `true`, exactly when the
    /// new scale lies in the band and no intermediate pair leaves the
    /// `i64` range; otherwise the transform is unchanged and no drift
    /// occurs.
    pub fn apply_cursor_anchored_zoom(&mut self, magnitude: &Frac, cursor: &Vec2D)
        -> (applied: bool)
        requires
            old(self).wf(),
            magnitude.wf(),
            cursor.wf(),
        ensures
            final(self).wf(),
            applied == czoom_ok(old(self)@, magnitude@, cursor@),
            applied ==> final(self)@ == czoom_spec(old(self)@, magnitude@, cursor@),
            !applied ==> *final(self) == *old(self),
    {
        let one = Frac::from_int(1);
        let five_hundred = Frac::from_int(500);
        let neg_m = match magnitude.neg() {
            None => return false,
            Some(v) => v,
        };
        let pulse = match neg_m.div(&five_hundred) {
            None => return false,
            Some(v) => v,
        };
        let zoom_factor = match one.add(&pulse) {
            None => return false,
            Some(v) => v,
        };
        let new_scale = match self.affine_matrix.get_scale().mul(&zoom_factor) {
            None => return false,
            Some(v) => v,
        };
        if !new_scale.is_in_band() {
            return false;
        }
        let new_scale_r = new_scale.reduced();
        let w = match cursor.sub(&self.offset) {
            None => return false,
            Some(v) => v,
        };
        let inv_old = match self.affine_matrix.inverse() {
            None => return false,
            Some(v) => v,
        };
        let pre_target = match inv_old.mul_vec(&w) {
            None => return false,
            Some(v) => v.reduced(),
        };
        let new_matrix = Matrix2x2 {
            a: new_scale_r,
            b: self.affine_matrix.b,
            c: self.affine_matrix.c,
            d: new_scale_r,
        };
        let inv_new = match new_matrix.inverse() {
            None => return false,
            Some(v) => v,
        };
        let post_target = match inv_new.mul_vec(&w) {
            None => return false,
            Some(v) => v.reduced(),
        };
        let drift = match post_target.sub(&pre_target) {
            None => return false,
            Some(v) => v,
        };
        let correction = match new_matrix.mul_vec(&drift) {
            None => return false,
            Some(v) => v,
        };
        let new_offset = match self.offset.add(&correction) {
            None => return false,
            Some(v) => v,
        };
        self.affine_matrix = new_matrix;
        self.offset = new_offset.reduced();
        proof {
            lemma_rat_norm(new_scale@);
            lemma_in_band_congr(new_scale@, rat_norm(new_scale@));
        }
        true
    }
}

} // verus!
