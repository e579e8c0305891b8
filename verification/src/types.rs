//! Geometry primitives: a 2-D vector of exact rational scalars and a
//! general-purpose 2x2 matrix, together with the small display-state
//! enums of the viewer.
//!
//! The engine only ever stores uniform-scale diagonal matrices, but the
//! matrix type itself is general purpose, and `inverse` uses the general
//! closed-form 2x2 formula with an explicit guard against a zero
//! determinant.

use vstd::prelude::*;

use crate::rat::{
    add_ok, div_ok, in_band, inv_ok, mul_ok, neg_ok, rat_add, rat_div, rat_fits, rat_int,
    rat_mul, rat_neg, rat_norm, rat_sub, rat_wf, sub_ok, Frac, Rat,
};

verus! {

/// The mathematical value of a vector: a pair of rational values.
pub ghost struct V2 {
    pub x: Rat,
    pub y: Rat,
}

/// Both components denote rational numbers.
pub open spec fn v2_wf(v: V2) -> bool {
    rat_wf(v.x) && rat_wf(v.y)
}

/// Component-wise sum.
pub open spec fn v2_add(a: V2, b: V2) -> V2 {
    V2 { x: rat_add(a.x, b.x), y: rat_add(a.y, b.y) }
}

/// Component-wise difference.
pub open spec fn v2_sub(a: V2, b: V2) -> V2 {
    V2 { x: rat_sub(a.x, b.x), y: rat_sub(a.y, b.y) }
}

/// Component-wise negation.
pub open spec fn v2_neg(a: V2) -> V2 {
    V2 { x: rat_neg(a.x), y: rat_neg(a.y) }
}

/// Component-wise product.
pub open spec fn v2_mul(a: V2, b: V2) -> V2 {
    V2 { x: rat_mul(a.x, b.x), y: rat_mul(a.y, b.y) }
}

/// Component-wise quotient.
pub open spec fn v2_div(a: V2, b: V2) -> V2 {
    V2 { x: rat_div(a.x, b.x), y: rat_div(a.y, b.y) }
}

/// Both components set to the same scalar.
pub open spec fn v2_single(s: Rat) -> V2 {
    V2 { x: s, y: s }
}

/// Both components in lowest terms.
pub open spec fn v2_norm(v: V2) -> V2 {
    V2 { x: rat_norm(v.x), y: rat_norm(v.y) }
}

pub open spec fn v2_add_ok(a: V2, b: V2) -> bool {
    add_ok(a.x, b.x) && add_ok(a.y, b.y)
}

pub open spec fn v2_sub_ok(a: V2, b: V2) -> bool {
    sub_ok(a.x, b.x) && sub_ok(a.y, b.y)
}

pub open spec fn v2_neg_ok(a: V2) -> bool {
    neg_ok(a.x) && neg_ok(a.y)
}

pub open spec fn v2_mul_ok(a: V2, b: V2) -> bool {
    mul_ok(a.x, b.x) && mul_ok(a.y, b.y)
}

pub open spec fn v2_div_ok(a: V2, b: V2) -> bool {
    div_ok(a.x, b.x) && div_ok(a.y, b.y)
}

/// A 2-D vector of exact rational scalars, used both for points and for
/// displacement vectors; callers track which is which.
#[derive(Clone, Copy, Debug, PartialEq, Eq, Structural)]
pub struct Vec2D {
    pub x: Frac,
    pub y: Frac,
}

impl View for Vec2D {
    type V = V2;

    open spec fn view(&self) -> V2 {
        V2 { x: self.x@, y: self.y@ }
    }
}

impl Vec2D {
    /// Both component denominators are positive.
    pub open spec fn wf(&self) -> bool {
        self.x.wf() && self.y.wf()
    }

    /// The zero vector.
    pub fn new() -> (r: Vec2D)
        ensures
            r.wf(),
            r@ == (V2 { x: rat_int(0), y: rat_int(0) }),
    {
        Vec2D { x: Frac::from_int(0), y: Frac::from_int(0) }
    }

    /// The vector `(x, y)`.
    pub fn from(x: Frac, y: Frac) -> (r: Vec2D)
        ensures
            r@ == (V2 { x: x@, y: y@ }),
            x.wf() && y.wf() ==> r.wf(),
    {
        Vec2D { x, y }
    }

    /// The vector `(w, w)`.
    pub fn from_single(w: Frac) -> (r: Vec2D)
        ensures
            r@ == v2_single(w@),
            w.wf() ==> r.wf(),
    {
        Vec2D { x: w, y: w }
    }

    /// Component-wise sum; `None` exactly when a component overflows.
    pub fn add(&self, other: &Vec2D) -> (r: Option<Vec2D>)
        requires
            self.wf(),
            other.wf(),
        ensures
            r is Some <==> v2_add_ok(self@, other@),
            r matches Some(v) ==> v.wf() && v@ == v2_add(self@, other@),
    {
        let x = match self.x.add(&other.x) {
            None => return None,
            Some(v) => v,
        };
        let y = match self.y.add(&other.y) {
            None => return None,
            Some(v) => v,
        };
        Some(Vec2D { x, y })
    }

    /// Component-wise difference; `None` exactly when a component
    /// overflows.
    pub fn sub(&self, other: &Vec2D) -> (r: Option<Vec2D>)
        requires
            self.wf(),
            other.wf(),
        ensures
            r is Some <==> v2_sub_ok(self@, other@),
            r matches Some(v) ==> v.wf() && v@ == v2_sub(self@, other@),
    {
        let x = match self.x.sub(&other.x) {
            None => return None,
            Some(v) => v,
        };
        let y = match self.y.sub(&other.y) {
            None => return None,
            Some(v) => v,
        };
        Some(Vec2D { x, y })
    }

    /// Component-wise negation; `None` exactly when a component
    /// overflows.
    pub fn neg(&self) -> (r: Option<Vec2D>)
        requires
            self.wf(),
        ensures
            r is Some <==> v2_neg_ok(self@),
            r matches Some(v) ==> v.wf() && v@ == v2_neg(self@),
    {
        let x = match self.x.neg() {
            None => return None,
            Some(v) => v,
        };
        let y = match self.y.neg() {
            None => return None,
            Some(v) => v,
        };
        Some(Vec2D { x, y })
    }

    /// Component-wise product; `None` exactly when a component
    /// overflows.
    pub fn mul(&self, other: &Vec2D) -> (r: Option<Vec2D>)
        requires
            self.wf(),
            other.wf(),
        ensures
            r is Some <==> v2_mul_ok(self@, other@),
            r matches Some(v) ==> v.wf() && v@ == v2_mul(self@, other@),
    {
        let x = match self.x.mul(&other.x) {
            None => return None,
            Some(v) => v,
        };
        let y = match self.y.mul(&other.y) {
            None => return None,
            Some(v) => v,
        };
        Some(Vec2D { x, y })
    }

    /// Component-wise quotient; `None` exactly when a divisor component
    /// is zero or a component overflows.
    pub fn div(&self, other: &Vec2D) -> (r: Option<Vec2D>)
        requires
            self.wf(),
            other.wf(),
        ensures
            r is Some <==> v2_div_ok(self@, other@),
            r matches Some(v) ==> v.wf() && v@ == v2_div(self@, other@),
    {
        let x = match self.x.div(&other.x) {
            None => return None,
            Some(v) => v,
        };
        let y = match self.y.div(&other.y) {
            None => return None,
            Some(v) => v,
        };
        Some(Vec2D { x, y })
    }

    /// Both components brought to lowest terms; the value is unchanged.
    pub fn reduced(&self) -> (r: Vec2D)
        requires
            self.wf(),
        ensures
            r.wf(),
            r@ == v2_norm(self@),
    {
        Vec2D { x: self.x.reduced(), y: self.y.reduced() }
    }
}

/// The mathematical value of a matrix.
pub ghost struct M2 {
    pub a: Rat,
    pub b: Rat,
    pub c: Rat,
    pub d: Rat,
}

/// All four entries denote rational numbers.
pub open spec fn m2_wf(m: M2) -> bool {
    rat_wf(m.a) && rat_wf(m.b) && rat_wf(m.c) && rat_wf(m.d)
}

/// The matrix is a uniform-scale diagonal matrix: the off-diagonal
/// entries are zero and the two diagonal entries are the same pair.
/// This is the shape the viewport engine maintains at all times.
pub open spec fn m2_uniform(m: M2) -> bool {
    m2_wf(m) && m.b.n == 0 && m.c.n == 0 && m.a == m.d
}

/// Matrix-vector product.
pub open spec fn m2_mul_vec(m: M2, v: V2) -> V2 {
    V2 {
        x: rat_add(rat_mul(m.a, v.x), rat_mul(m.b, v.y)),
        y: rat_add(rat_mul(m.c, v.x), rat_mul(m.d, v.y)),
    }
}

pub open spec fn m2_mul_vec_ok(m: M2, v: V2) -> bool {
    &&& mul_ok(m.a, v.x)
    &&& mul_ok(m.b, v.y)
    &&& add_ok(rat_mul(m.a, v.x), rat_mul(m.b, v.y))
    &&& mul_ok(m.c, v.x)
    &&& mul_ok(m.d, v.y)
    &&& add_ok(rat_mul(m.c, v.x), rat_mul(m.d, v.y))
}

/// The determinant `a*d - b*c`.
pub open spec fn m2_det(m: M2) -> Rat {
    rat_sub(rat_mul(m.a, m.d), rat_mul(m.b, m.c))
}

/// The general closed-form 2x2 inverse.
pub open spec fn m2_inverse(m: M2) -> M2 {
    M2 {
        a: rat_div(m.d, m2_det(m)),
        b: rat_div(rat_neg(m.b), m2_det(m)),
        c: rat_div(rat_neg(m.c), m2_det(m)),
        d: rat_div(m.a, m2_det(m)),
    }
}

pub open spec fn m2_inverse_ok(m: M2) -> bool {
    &&& mul_ok(m.a, m.d)
    &&& mul_ok(m.b, m.c)
    &&& sub_ok(rat_mul(m.a, m.d), rat_mul(m.b, m.c))
    &&& neg_ok(m.b)
    &&& neg_ok(m.c)
    &&& div_ok(m.d, m2_det(m))
    &&& div_ok(rat_neg(m.b), m2_det(m))
    &&& div_ok(rat_neg(m.c), m2_det(m))
    &&& div_ok(m.a, m2_det(m))
}

/// A general-purpose 2x2 matrix of exact rational scalars.  The engine
/// stores uniform scale factors as `[[s, 0], [0, s]]`.
#[derive(Clone, Copy, Debug, PartialEq, Eq, Structural)]
pub struct Matrix2x2 {
    pub a: Frac,
    pub b: Frac,
    pub c: Frac,
    pub d: Frac,
}

impl View for Matrix2x2 {
    type V = M2;

    open spec fn view(&self) -> M2 {
        M2 { a: self.a@, b: self.b@, c: self.c@, d: self.d@ }
    }
}

impl Matrix2x2 {
    /// All entry denominators are positive.
    pub open spec fn wf(&self) -> bool {
        self.a.wf() && self.b.wf() && self.c.wf() && self.d.wf()
    }

    /// The identity matrix.
    pub fn new() -> (r: Matrix2x2)
        ensures
            r.wf(),
            r@ == (M2 {
                a: rat_int(1),
                b: rat_int(0),
                c: rat_int(0),
                d: rat_int(1),
            }),
            m2_uniform(r@),
            in_band(r@.a),
    {
        Matrix2x2 {
            a: Frac::from_int(1),
            b: Frac::from_int(0),
            c: Frac::from_int(0),
            d: Frac::from_int(1),
        }
    }

    /// The stored uniform scale factor (the top-left entry).
    pub fn get_scale(&self) -> (r: Frac)
        ensures
            r == self.a,
    {
        self.a
    }

    /// Multiplies the stored scale in place: both diagonal entries become
    /// `a * scale_factor`, in lowest terms.  If the new scale would leave
    /// the band `[1/100, 100]`, or its pair would leave the `i64` range,
    /// the matrix is left unchanged (the attempted change is discarded,
    /// not clamped).
    pub fn set_scale(&mut self, scale_factor: Frac)
        requires
            old(self).wf(),
            scale_factor.wf(),
        ensures
            final(self).wf(),
            ({
                let ns = rat_mul(old(self)@.a, scale_factor@);
                if in_band(ns) && rat_fits(ns) {
                    final(self)@.a == rat_norm(ns) && final(self)@.d == rat_norm(ns)
                        && final(self).b == old(self).b && final(self).c == old(self).c
                } else {
                    *final(self) == *old(self)
                }
            }),
            m2_uniform(old(self)@) ==> m2_uniform(final(self)@),
    {
        let ns = match self.a.mul(&scale_factor) {
            None => return,
            Some(v) => v,
        };
        if ns.is_in_band() {
            let nsr = ns.reduced();
            self.a = nsr;
            self.d = nsr;
        }
    }

    /// The general 2x2 inverse `[[d, -b], [-c, a]] / det`; `None` exactly
    /// when the determinant is zero or an intermediate pair leaves the
    /// `i64` range.
    pub fn inverse(&self) -> (r: Option<Matrix2x2>)
        requires
            self.wf(),
        ensures
            r is Some <==> m2_inverse_ok(self@),
            r matches Some(m) ==> m.wf() && m@ == m2_inverse(self@),
    {
        let ad = match self.a.mul(&self.d) {
            None => return None,
            Some(v) => v,
        };
        let bc = match self.b.mul(&self.c) {
            None => return None,
            Some(v) => v,
        };
        let det = match ad.sub(&bc) {
            None => return None,
            Some(v) => v,
        };
        let nb = match self.b.neg() {
            None => return None,
            Some(v) => v,
        };
        let nc = match self.c.neg() {
            None => return None,
            Some(v) => v,
        };
        let ra = match self.d.div(&det) {
            None => return None,
            Some(v) => v,
        };
        let rb = match nb.div(&det) {
            None => return None,
            Some(v) => v,
        };
        let rc = match nc.div(&det) {
            None => return None,
            Some(v) => v,
        };
        let rd = match self.a.div(&det) {
            None => return None,
            Some(v) => v,
        };
        Some(Matrix2x2 { a: ra, b: rb, c: rc, d: rd })
    }

    /// Matrix-vector product; `None` exactly when an intermediate pair
    /// leaves the `i64` range.
    pub fn mul_vec(&self, v: &Vec2D) -> (r: Option<Vec2D>)
        requires
            self.wf(),
            v.wf(),
        ensures
            r is Some <==> m2_mul_vec_ok(self@, v@),
            r matches Some(w) ==> w.wf() && w@ == m2_mul_vec(self@, v@),
    {
        let ax = match self.a.mul(&v.x) {
            None => return None,
            Some(t) => t,
        };
        let by = match self.b.mul(&v.y) {
            None => return None,
            Some(t) => t,
        };
        let rx = match ax.add(&by) {
            None => return None,
            Some(t) => t,
        };
        let cx = match self.c.mul(&v.x) {
            None => return None,
            Some(t) => t,
        };
        let dy = match self.d.mul(&v.y) {
            None => return None,
            Some(t) => t,
        };
        let ry = match cx.add(&dy) {
            None => return None,
            Some(t) => t,
        };
        Some(Vec2D { x: rx, y: ry })
    }
}

/// Which neighbouring image to move to.
#[derive(Clone, Copy, Debug, PartialEq, Eq, Structural)]
pub enum Direction {
    Left,
    Right,
}

/// How the current image is being displayed, with a flag that records
/// whether the mode still has to be applied on the next layout pass.
#[derive(Clone, Copy, Debug, PartialEq, Eq, Structural)]
pub enum DisplayState {
    Centered(bool),
    RealSize(bool),
    Zoomed(bool),
}

impl DisplayState {
    /// The flag carried by the current variant.
    pub open spec fn flag(&self) -> bool {
        match *self {
            DisplayState::Centered(b) => b,
            DisplayState::RealSize(b) => b,
            DisplayState::Zoomed(b) => b,
        }
    }

    /// The same variant carrying `flag` instead.
    pub open spec fn with_flag(&self, flag: bool) -> DisplayState {
        match *self {
            DisplayState::Centered(_) => DisplayState::Centered(flag),
            DisplayState::RealSize(_) => DisplayState::RealSize(flag),
            DisplayState::Zoomed(_) => DisplayState::Zoomed(flag),
        }
    }

    /// Raises the flag, keeping the variant.
    pub fn set(&mut self)
        ensures
            *final(self) == old(self).with_flag(true),
    {
        self.set_state(true)
    }

    /// Clears the flag, keeping the variant.
    pub fn clear(&mut self)
        ensures
            *final(self) == old(self).with_flag(false),
    {
        self.set_state(false)
    }

    fn set_state(&mut self, new_state: bool)
        ensures
            *final(self) == old(self).with_flag(new_state),
    {
        match self {
            DisplayState::Centered(old_state) => *old_state = new_state,
            DisplayState::RealSize(old_state) => *old_state = new_state,
            DisplayState::Zoomed(old_state) => *old_state = new_state,
        }
    }
}

} // verus!
