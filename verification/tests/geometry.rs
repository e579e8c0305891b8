//! Exact-arithmetic tests for the scalar and geometry primitives.

use foxfire::rat::Frac;
use foxfire::types::{Matrix2x2, Vec2D};

#[test]
fn frac_add_exact_pair() {
    let a = Frac::new(1, 2);
    let b = Frac::new(1, 3);
    let c = a.add(&b).unwrap();
    assert_eq!(c.num, 5);
    assert_eq!(c.den, 6);
}

#[test]
fn frac_sub_and_neg() {
    let a = Frac::from_int(3);
    let b = Frac::new(1, 4);
    let c = a.sub(&b).unwrap();
    assert!(c.eq_rat(&Frac::new(11, 4)));
    let n = b.neg().unwrap();
    assert!(n.eq_rat(&Frac::new(-1, 4)));
}

#[test]
fn frac_mul_div_round_trip() {
    let a = Frac::new(22, 15);
    let b = Frac::new(5, 11);
    let p = a.mul(&b).unwrap();
    assert!(p.eq_rat(&Frac::new(2, 3)));
    let q = p.div(&b).unwrap();
    assert!(q.eq_rat(&a));
}

#[test]
fn frac_div_by_zero_is_none() {
    let a = Frac::from_int(1);
    let z = Frac::from_int(0);
    assert!(a.div(&z).is_none());
    assert!(z.inv().is_none());
}

#[test]
fn frac_overflow_is_none() {
    let big = Frac::new(i64::MAX, 1);
    assert!(big.add(&big).is_none());
    assert!(big.mul(&big).is_none());
    let most_negative = Frac::new(i64::MIN, 1);
    assert!(most_negative.neg().is_none());
}

#[test]
fn frac_ordering() {
    let a = Frac::new(1, 3);
    let b = Frac::new(2, 5);
    assert!(a.lt(&b));
    assert!(a.le(&b));
    assert!(!b.le(&a));
    assert!(a.le(&Frac::new(2, 6)));
    assert!(a.eq_rat(&Frac::new(2, 6)));
}

#[test]
fn frac_band_edges() {
    assert!(Frac::new(1, 100).is_in_band());
    assert!(Frac::from_int(100).is_in_band());
    assert!(!Frac::new(1, 101).is_in_band());
    assert!(!Frac::new(101, 1).is_in_band());
    assert!(Frac::from_int(1).is_in_band());
}

#[test]
fn vec2d_componentwise_ops() {
    let a = Vec2D::from(Frac::from_int(3), Frac::from_int(4));
    let b = Vec2D::from_single(Frac::from_int(2));
    let s = a.add(&b).unwrap();
    assert!(s.x.eq_rat(&Frac::from_int(5)));
    assert!(s.y.eq_rat(&Frac::from_int(6)));
    let d = a.sub(&b).unwrap();
    assert!(d.x.eq_rat(&Frac::from_int(1)));
    assert!(d.y.eq_rat(&Frac::from_int(2)));
    let m = a.mul(&b).unwrap();
    assert!(m.x.eq_rat(&Frac::from_int(6)));
    assert!(m.y.eq_rat(&Frac::from_int(8)));
    let q = a.div(&b).unwrap();
    assert!(q.x.eq_rat(&Frac::new(3, 2)));
    assert!(q.y.eq_rat(&Frac::from_int(2)));
    let n = a.neg().unwrap();
    assert!(n.x.eq_rat(&Frac::from_int(-3)));
    let z = Vec2D::new();
    assert!(z.x.eq_rat(&Frac::from_int(0)));
    assert!(z.y.eq_rat(&Frac::from_int(0)));
}

#[test]
fn matrix_identity_and_scale() {
    let mut m = Matrix2x2::new();
    assert!(m.get_scale().eq_rat(&Frac::from_int(1)));
    m.set_scale(Frac::new(3, 2));
    assert!(m.get_scale().eq_rat(&Frac::new(3, 2)));
    assert!(m.d.eq_rat(&Frac::new(3, 2)));
    assert!(m.b.eq_rat(&Frac::from_int(0)));
}

#[test]
fn matrix_set_scale_rejects_out_of_band() {
    let mut m = Matrix2x2::new();
    // far below the band: discarded, not clamped
    m.set_scale(Frac::new(1, 1000));
    assert!(m.get_scale().eq_rat(&Frac::from_int(1)));
    // far above the band: discarded as well
    m.set_scale(Frac::from_int(500));
    assert!(m.get_scale().eq_rat(&Frac::from_int(1)));
    // the boundary itself is kept
    m.set_scale(Frac::from_int(100));
    assert!(m.get_scale().eq_rat(&Frac::from_int(100)));
}

#[test]
fn matrix_general_inverse() {
    let m = Matrix2x2 {
        a: Frac::from_int(2),
        b: Frac::from_int(1),
        c: Frac::from_int(1),
        d: Frac::from_int(1),
    };
    let inv = m.inverse().unwrap();
    assert!(inv.a.eq_rat(&Frac::from_int(1)));
    assert!(inv.b.eq_rat(&Frac::from_int(-1)));
    assert!(inv.c.eq_rat(&Frac::from_int(-1)));
    assert!(inv.d.eq_rat(&Frac::from_int(2)));
    // applying m then its inverse gives the point back
    let p = Vec2D::from(Frac::from_int(7), Frac::from_int(-3));
    let q = m.mul_vec(&p).unwrap();
    let back = inv.mul_vec(&q).unwrap();
    assert!(back.x.eq_rat(&p.x));
    assert!(back.y.eq_rat(&p.y));
}

#[test]
fn matrix_singular_inverse_is_none() {
    let m = Matrix2x2 {
        a: Frac::from_int(1),
        b: Frac::from_int(2),
        c: Frac::from_int(2),
        d: Frac::from_int(4),
    };
    assert!(m.inverse().is_none());
}
