//! Exact rational scalars.
//!
//! Every coordinate and scale factor of the engine is a fraction
//! `num / den` of two machine integers with a positive denominator.
//! The mathematical value of a scalar is the ghost pair [`Rat`]; two
//! pairs denote the same rational number exactly when they are related
//! by [`rat_eq`] (cross multiplication).  Executable operations return
//! `None` instead of overflowing, and their contracts say exactly which
//! pair is produced and exactly when the operation succeeds.

use vstd::prelude::*;

verus! {

/// The mathematical value of a scalar: the pair `n / d`.
pub ghost struct Rat {
    pub n: int,
    pub d: int,
}

/// A pair denotes a rational number only when its denominator is positive.
pub open spec fn rat_wf(x: Rat) -> bool {
    x.d > 0
}

/// The integer `i` as a pair.
pub open spec fn rat_int(i: int) -> Rat {
    Rat { n: i, d: 1 }
}

/// Sum of two pairs.
pub open spec fn rat_add(x: Rat, y: Rat) -> Rat {
    Rat { n: x.n * y.d + y.n * x.d, d: x.d * y.d }
}

/// Difference of two pairs.
pub open spec fn rat_sub(x: Rat, y: Rat) -> Rat {
    Rat { n: x.n * y.d - y.n * x.d, d: x.d * y.d }
}

/// Negation of a pair.
pub open spec fn rat_neg(x: Rat) -> Rat {
    Rat { n: -x.n, d: x.d }
}

/// Product of two pairs.
pub open spec fn rat_mul(x: Rat, y: Rat) -> Rat {
    Rat { n: x.n * y.n, d: x.d * y.d }
}

/// Reciprocal of a pair, with the sign kept in the numerator so that the
/// denominator stays positive.  Meaningful only when `x.n != 0`.
pub open spec fn rat_inv(x: Rat) -> Rat {
    if x.n >= 0 {
        Rat { n: x.d, d: x.n }
    } else {
        Rat { n: -x.d, d: -x.n }
    }
}

/// Quotient of two pairs.  Meaningful only when `y.n != 0`.
pub open spec fn rat_div(x: Rat, y: Rat) -> Rat {
    rat_mul(x, rat_inv(y))
}

/// The two pairs denote the same rational number.
/// (Assumes positive denominators.)
pub open spec fn rat_eq(x: Rat, y: Rat) -> bool {
    x.n * y.d == y.n * x.d
}

/// `x <= y` as rational numbers.  (Assumes positive denominators.)
pub open spec fn rat_le(x: Rat, y: Rat) -> bool {
    x.n * y.d <= y.n * x.d
}

/// `x < y` as rational numbers.  (Assumes positive denominators.)
pub open spec fn rat_lt(x: Rat, y: Rat) -> bool {
    x.n * y.d < y.n * x.d
}

/// The integer fits in an `i64`.
pub open spec fn fits_i64(x: int) -> bool {
    i64::MIN <= x <= i64::MAX
}

/// Both components of the pair fit in an `i64`, so the pair is
/// representable as a [`Frac`].
pub open spec fn rat_fits(x: Rat) -> bool {
    fits_i64(x.n) && fits_i64(x.d)
}

/// The scale band: a stored scale factor always lies in `[1/100, 100]`.
pub open spec fn in_band(s: Rat) -> bool {
    rat_le(Rat { n: 1, d: 100 }, s) && rat_le(s, Rat { n: 100, d: 1 })
}

/// The sum of the two pairs is representable.
pub open spec fn add_ok(x: Rat, y: Rat) -> bool {
    rat_fits(rat_add(x, y))
}

/// The difference of the two pairs is representable.
pub open spec fn sub_ok(x: Rat, y: Rat) -> bool {
    rat_fits(rat_sub(x, y))
}

/// The negation of the pair is representable.
pub open spec fn neg_ok(x: Rat) -> bool {
    rat_fits(rat_neg(x))
}

/// The product of the two pairs is representable.
pub open spec fn mul_ok(x: Rat, y: Rat) -> bool {
    rat_fits(rat_mul(x, y))
}

/// The reciprocal exists and is representable.
pub open spec fn inv_ok(x: Rat) -> bool {
    x.n != 0 && rat_fits(rat_inv(x))
}

/// The quotient exists and it and its intermediate reciprocal are
/// representable.
pub open spec fn div_ok(x: Rat, y: Rat) -> bool {
    inv_ok(y) && rat_fits(rat_div(x, y))
}

/// The magnitude of an integer.
pub open spec fn int_abs(x: int) -> nat {
    if x >= 0 {
        x as nat
    } else {
        (-x) as nat
    }
}

/// The greatest common divisor, by Euclid's algorithm.
pub open spec fn gcd_nat(a: nat, b: nat) -> nat
    decreases b,
{
    if b == 0 {
        a
    } else {
        gcd_nat(b, a % b)
    }
}

/// The pair in lowest terms: both components divided by their greatest
/// common divisor.
pub open spec fn rat_norm(x: Rat) -> Rat {
    let g = gcd_nat(int_abs(x.n), x.d as nat) as int;
    if g <= 1 {
        x
    } else {
        Rat { n: x.n / g, d: x.d / g }
    }
}

/// The greatest common divisor of `a` and a positive `b` is positive,
/// at most `b`, and divides both.
pub proof fn lemma_gcd(a: nat, b: nat)
    requires
        b > 0,
    ensures
        1 <= gcd_nat(a, b) <= b,
        a % gcd_nat(a, b) == 0,
        b % gcd_nat(a, b) == 0,
    decreases b,
{
    let g = gcd_nat(a, b);
    let r = a % b;
    if r == 0 {
        assert(gcd_nat(b, 0) == b);
        assert(g == b);
        vstd::arithmetic::div_mod::lemma_mod_self_0(b as int);
    } else {
        lemma_gcd(b, r);
        assert(g == gcd_nat(b, r));
        let qb: int = b as int / g as int;
        let qr: int = r as int / g as int;
        vstd::arithmetic::div_mod::lemma_fundamental_div_mod(b as int, g as int);
        vstd::arithmetic::div_mod::lemma_fundamental_div_mod(r as int, g as int);
        assert(b as int == g as int * qb);
        assert(r as int == g as int * qr);
        vstd::arithmetic::div_mod::lemma_fundamental_div_mod(a as int, b as int);
        let k: int = a as int / b as int;
        assert(a as int == (qb * k + qr) * (g as int) + 0) by (nonlinear_arith)
            requires
                a as int == b as int * k + r as int,
                b as int == g as int * qb,
                r as int == g as int * qr;
        vstd::arithmetic::div_mod::lemma_fundamental_div_mod_converse(
            a as int,
            g as int,
            qb * k + qr,
            0,
        );
    }
}

/// Reducing a pair keeps its value, keeps the denominator positive, and
/// never grows either component.
pub proof fn lemma_rat_norm(x: Rat)
    requires
        rat_wf(x),
    ensures
        rat_wf(rat_norm(x)),
        rat_eq(rat_norm(x), x),
        0 < rat_norm(x).d <= x.d,
        int_abs(rat_norm(x).n) <= int_abs(x.n),
{
    let g = gcd_nat(int_abs(x.n), x.d as nat) as int;
    if g <= 1 {
    } else {
        lemma_gcd(int_abs(x.n), x.d as nat);
        let n2 = x.n / g;
        let d2 = x.d / g;
        // the divisor divides the magnitude, so it divides the signed
        // numerator exactly
        vstd::arithmetic::div_mod::lemma_fundamental_div_mod(int_abs(x.n) as int, g);
        let qm: int = int_abs(x.n) as int / g;
        assert(int_abs(x.n) as int == g * qm);
        if x.n >= 0 {
            assert(x.n == qm * g + 0) by (nonlinear_arith)
                requires x.n == g * qm;
            vstd::arithmetic::div_mod::lemma_fundamental_div_mod_converse(x.n, g, qm, 0);
            assert(n2 == qm);
        } else {
            assert(x.n == (-qm) * g + 0) by (nonlinear_arith)
                requires -x.n == g * qm;
            vstd::arithmetic::div_mod::lemma_fundamental_div_mod_converse(x.n, g, -qm, 0);
            assert(n2 == -qm);
        }
        assert(x.n == g * n2) by (nonlinear_arith)
            requires
                int_abs(x.n) as int == g * qm,
                x.n >= 0 ==> n2 == qm,
                x.n < 0 ==> n2 == -qm && int_abs(x.n) as int == -x.n;
        vstd::arithmetic::div_mod::lemma_fundamental_div_mod(x.d, g);
        assert(x.d == g * d2);
        vstd::arithmetic::div_mod::lemma_div_non_zero(x.d, g);
        assert(d2 <= x.d) by (nonlinear_arith)
            requires
                x.d == g * d2,
                g >= 2,
                d2 > 0;
        assert(n2 * x.d == x.n * d2) by (nonlinear_arith)
            requires
                x.n == g * n2,
                x.d == g * d2;
        vstd::arithmetic::div_mod::lemma_div_pos_is_pos(int_abs(x.n) as int, g);
        assert(qm >= 0);
        assert(qm <= int_abs(x.n) as int) by (nonlinear_arith)
            requires
                int_abs(x.n) as int == g * qm,
                g >= 2,
                qm >= 0;
    }
}

/// A product of two `i64`-range factors stays well inside the `i128` range.
pub proof fn lemma_mul_i64_i128(a: int, b: int)
    by (nonlinear_arith)
    requires
        i64::MIN <= a <= i64::MAX,
        i64::MIN <= b <= i64::MAX,
    ensures
        -0x40000000000000000000000000000000 <= a * b
            <= 0x40000000000000000000000000000000,
{
}

/// A product of an `i64`-range factor and a positive `i64` denominator is
/// bounded away from the ends of the `i128` range far enough that two such
/// products can be added without overflow.
pub proof fn lemma_mul_i64_den(a: int, d: int)
    by (nonlinear_arith)
    requires
        i64::MIN <= a <= i64::MAX,
        1 <= d <= i64::MAX,
    ensures
        -(0x40000000000000000000000000000000 - 0x8000000000000000) <= a * d
            <= 0x40000000000000000000000000000000 - 0x8000000000000000,
{
}

/// A product of two positive integers is positive.
pub proof fn lemma_mul_pos(a: int, b: int)
    by (nonlinear_arith)
    requires
        a > 0,
        b > 0,
    ensures
        a * b > 0,
{
}

/// The magnitude of a signed machine integer, without overflow at the
/// most negative value.
fn abs_u64(x: i64) -> (r: u64)
    ensures
        r as nat == int_abs(x as int),
{
    if x >= 0 {
        x as u64
    } else if x == i64::MIN {
        9223372036854775808u64
    } else {
        (-x) as u64
    }
}

/// Euclid's algorithm on machine integers.
fn gcd_u64(a: u64, b: u64) -> (g: u64)
    ensures
        g as nat == gcd_nat(a as nat, b as nat),
{
    let mut x: u64 = a;
    let mut y: u64 = b;
    while y != 0
        invariant
            gcd_nat(x as nat, y as nat) == gcd_nat(a as nat, b as nat),
        decreases y,
    {
        let r: u64 = x % y;
        x = y;
        y = r;
    }
    x
}

/// An exact rational scalar: the value `num / den`.
#[derive(Clone, Copy, Debug, PartialEq, Eq, Structural)]
pub struct Frac {
    pub num: i64,
    pub den: i64,
}

impl View for Frac {
    type V = Rat;

    open spec fn view(&self) -> Rat {
        Rat { n: self.num as int, d: self.den as int }
    }
}

impl Frac {
    /// The denominator is positive, so the scalar denotes a rational number.
    pub open spec fn wf(&self) -> bool {
        self.den > 0
    }

    /// Builds the scalar `num / den`.
    pub fn new(num: i64, den: i64) -> (r: Frac)
        requires
            den > 0,
        ensures
            r.wf(),
            r@ == (Rat { n: num as int, d: den as int }),
    {
        Frac { num, den }
    }

    /// Builds the integer scalar `i`.
    pub fn from_int(i: i64) -> (r: Frac)
        ensures
            r.wf(),
            r@ == rat_int(i as int),
    {
        Frac { num: i, den: 1 }
    }

    /// Sum; `None` exactly when the resulting pair leaves the `i64` range.
    pub fn add(&self, other: &Frac) -> (r: Option<Frac>)
        requires
            self.wf(),
            other.wf(),
        ensures
            r is Some <==> rat_fits(rat_add(self@, other@)),
            r matches Some(f) ==> f.wf() && f@ == rat_add(self@, other@),
    {
        proof {
            lemma_mul_i64_den(self.num as int, other.den as int);
            lemma_mul_i64_den(other.num as int, self.den as int);
            lemma_mul_i64_den(self.den as int, other.den as int);
            lemma_mul_pos(self.den as int, other.den as int);
        }
        let n: i128 = (self.num as i128) * (other.den as i128)
            + (other.num as i128) * (self.den as i128);
        let d: i128 = (self.den as i128) * (other.den as i128);
        if n < i64::MIN as i128 || n > i64::MAX as i128 || d > i64::MAX as i128 {
            None
        } else {
            Some(Frac { num: n as i64, den: d as i64 })
        }
    }

    /// Difference; `None` exactly when the resulting pair leaves the `i64`
    /// range.
    pub fn sub(&self, other: &Frac) -> (r: Option<Frac>)
        requires
            self.wf(),
            other.wf(),
        ensures
            r is Some <==> rat_fits(rat_sub(self@, other@)),
            r matches Some(f) ==> f.wf() && f@ == rat_sub(self@, other@),
    {
        proof {
            lemma_mul_i64_den(self.num as int, other.den as int);
            lemma_mul_i64_den(other.num as int, self.den as int);
            lemma_mul_i64_den(self.den as int, other.den as int);
            lemma_mul_pos(self.den as int, other.den as int);
        }
        let n: i128 = (self.num as i128) * (other.den as i128)
            - (other.num as i128) * (self.den as i128);
        let d: i128 = (self.den as i128) * (other.den as i128);
        if n < i64::MIN as i128 || n > i64::MAX as i128 || d > i64::MAX as i128 {
            None
        } else {
            Some(Frac { num: n as i64, den: d as i64 })
        }
    }

    /// Negation; `None` exactly when the negated numerator leaves the `i64`
    /// range (only for the most negative numerator).
    pub fn neg(&self) -> (r: Option<Frac>)
        requires
            self.wf(),
        ensures
            r is Some <==> rat_fits(rat_neg(self@)),
            r matches Some(f) ==> f.wf() && f@ == rat_neg(self@),
    {
        if self.num == i64::MIN {
            None
        } else {
            Some(Frac { num: -self.num, den: self.den })
        }
    }

    /// Product; `None` exactly when the resulting pair leaves the `i64`
    /// range.
    pub fn mul(&self, other: &Frac) -> (r: Option<Frac>)
        requires
            self.wf(),
            other.wf(),
        ensures
            r is Some <==> rat_fits(rat_mul(self@, other@)),
            r matches Some(f) ==> f.wf() && f@ == rat_mul(self@, other@),
    {
        proof {
            lemma_mul_i64_i128(self.num as int, other.num as int);
            lemma_mul_i64_den(self.den as int, other.den as int);
            lemma_mul_pos(self.den as int, other.den as int);
        }
        let n: i128 = (self.num as i128) * (other.num as i128);
        let d: i128 = (self.den as i128) * (other.den as i128);
        if n < i64::MIN as i128 || n > i64::MAX as i128 || d > i64::MAX as i128 {
            None
        } else {
            Some(Frac { num: n as i64, den: d as i64 })
        }
    }

    /// Reciprocal; `None` exactly when the scalar is zero or the sign flip
    /// leaves the `i64` range.
    pub fn inv(&self) -> (r: Option<Frac>)
        requires
            self.wf(),
        ensures
            r is Some <==> inv_ok(self@),
            r matches Some(f) ==> f.wf() && f@ == rat_inv(self@),
    {
        if self.num == 0 {
            None
        } else if self.num > 0 {
            Some(Frac { num: self.den, den: self.num })
        } else if self.num == i64::MIN {
            None
        } else {
            Some(Frac { num: -self.den, den: -self.num })
        }
    }

    /// Quotient; `None` exactly when the divisor is zero or an intermediate
    /// pair leaves the `i64` range.
    pub fn div(&self, other: &Frac) -> (r: Option<Frac>)
        requires
            self.wf(),
            other.wf(),
        ensures
            r is Some <==> div_ok(self@, other@),
            r matches Some(f) ==> f.wf() && f@ == rat_div(self@, other@),
    {
        match other.inv() {
            None => None,
            Some(i) => self.mul(&i),
        }
    }

    /// Exact rational equality of two scalars.
    pub fn eq_rat(&self, other: &Frac) -> (r: bool)
        requires
            self.wf(),
            other.wf(),
        ensures
            r == rat_eq(self@, other@),
    {
        proof {
            lemma_mul_i64_den(self.num as int, other.den as int);
            lemma_mul_i64_den(other.num as int, self.den as int);
        }
        (self.num as i128) * (other.den as i128) == (other.num as i128) * (self.den as i128)
    }

    /// Exact rational `<=` on two scalars.
    pub fn le(&self, other: &Frac) -> (r: bool)
        requires
            self.wf(),
            other.wf(),
        ensures
            r == rat_le(self@, other@),
    {
        proof {
            lemma_mul_i64_den(self.num as int, other.den as int);
            lemma_mul_i64_den(other.num as int, self.den as int);
        }
        (self.num as i128) * (other.den as i128) <= (other.num as i128) * (self.den as i128)
    }

    /// Exact rational `<` on two scalars.
    pub fn lt(&self, other: &Frac) -> (r: bool)
        requires
            self.wf(),
            other.wf(),
        ensures
            r == rat_lt(self@, other@),
    {
        proof {
            lemma_mul_i64_den(self.num as int, other.den as int);
            lemma_mul_i64_den(other.num as int, self.den as int);
        }
        (self.num as i128) * (other.den as i128) < (other.num as i128) * (self.den as i128)
    }

    /// The scalar denotes zero.
    pub fn is_zero(&self) -> (r: bool)
        requires
            self.wf(),
        ensures
            r == (self@.n == 0),
    {
        self.num == 0
    }

    /// The scalar in lowest terms: the stored pair divided by the
    /// greatest common divisor of its components.  The value is
    /// unchanged.
    pub fn reduced(&self) -> (r: Frac)
        requires
            self.wf(),
        ensures
            r.wf(),
            r@ == rat_norm(self@),
            rat_eq(r@, self@),
    {
        proof {
            lemma_rat_norm(self@);
        }
        let mag = abs_u64(self.num);
        let g = gcd_u64(mag, self.den as u64);
        proof {
            lemma_gcd(int_abs(self.num as int), self.den as nat);
        }
        if g <= 1 {
            return *self;
        }
        let m2 = mag / g;
        let d2 = (self.den as u64) / g;
        proof {
            let gg: int = g as int;
            vstd::arithmetic::div_mod::lemma_fundamental_div_mod(mag as int, gg);
            assert(mag as int == gg * (m2 as int));
            assert(2 * (m2 as int) <= mag as int) by (nonlinear_arith)
                requires
                    mag as int == gg * (m2 as int),
                    gg >= 2,
                    m2 >= 0;
            vstd::arithmetic::div_mod::lemma_div_non_zero(self.den as int, gg);
            if self.num < 0 {
                assert(self.num as int == (-(m2 as int)) * gg + 0) by (nonlinear_arith)
                    requires
                        mag as int == gg * (m2 as int),
                        self.num as int == -(mag as int);
                vstd::arithmetic::div_mod::lemma_fundamental_div_mod_converse(
                    self.num as int,
                    gg,
                    -(m2 as int),
                    0,
                );
            }
        }
        let num2: i64 = if self.num >= 0 {
            m2 as i64
        } else {
            -(m2 as i64)
        };
        let den2: i64 = d2 as i64;
        Frac { num: num2, den: den2 }
    }

    /// The scalar lies in the stored-scale band `[1/100, 100]`.
    pub fn is_in_band(&self) -> (r: bool)
        requires
            self.wf(),
        ensures
            r == in_band(self@),
    {
        let lo = Frac { num: 1, den: 100 };
        let hi = Frac { num: 100, den: 1 };
        lo.le(self) && self.le(&hi)
    }
}

} // verus!
