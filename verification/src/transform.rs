//! The trajectory transform: a shear and squeeze of the projective line.
//!
//! For a skew `a` and a parameter `t` other than zero the transform is the
//! matrix
//!
//! ```text
//! M(a, t) = [ t    a (t - 1/t) ]
//!           [ 0    1/t         ]
//! ```
//!
//! applied to a homogeneous vector `(p, q)`, which stands for the raw
//! coordinate `p / q`.  The executable matrix holds whole numbers: the entries
//! of `M(a, t)` times a common factor, which no projective ratio depends on.

use vstd::prelude::*;
use crate::algebra::{
    lemma_cast_mul, lemma_cleared_entries, lemma_entry_bounds, lemma_homogeneous_ratio,
    lemma_positive_product, lemma_product_bound, lemma_scaled_ratio, lemma_shear_at_one,
    lemma_shear_ratio, lemma_shear_without_skew, lemma_square_of_opposite, lemma_unit_entries,
};
use crate::config::{Config, ConfigModel};
use crate::rational::{lemma_sign, quotient, Ratio, Rational};

verus! {

/// A 2x2 matrix of real numbers.
pub struct Mat2 {
    pub m11: real,
    pub m12: real,
    pub m21: real,
    pub m22: real,
}

impl Mat2 {
    /// The product of this matrix and the column vector `v`.
    pub open spec fn apply(self, v: (real, real)) -> (real, real) {
        (self.m11 * v.0 + self.m12 * v.1, self.m21 * v.0 + self.m22 * v.1)
    }

    /// This matrix with every entry multiplied by `c`.
    pub open spec fn scaled(self, c: real) -> Mat2 {
        Mat2 { m11: c * self.m11, m12: c * self.m12, m21: c * self.m21, m22: c * self.m22 }
    }
}

/// The matrix `M(a, t)`.
pub open spec fn transform_matrix(a: real, t: real) -> Mat2 {
    Mat2 { m11: t, m12: a * (t - 1real / t), m21: 0real, m22: 1real / t }
}

/// The value `p / q` that a homogeneous vector `(p, q)` stands for.
pub open spec fn projective_ratio(v: (real, real)) -> real {
    v.0 / v.1
}

/// The raw coordinate at parameter `t` of the trajectory that passes through
/// `seed`: the projective ratio of `M(a, t)` applied to `(seed, 1)`.
pub open spec fn raw_coordinate(a: real, t: real, seed: real) -> real {
    projective_ratio(transform_matrix(a, t).apply((seed, 1real)))
}

/// The raw point at parameter `t` of the trajectory of the configuration `c`:
/// the transform is applied to the seed of each coordinate on its own.
pub open spec fn raw_point(c: ConfigModel, t: real) -> (real, real) {
    (raw_coordinate(c.a, t, c.vx), raw_coordinate(c.a, t, c.vy))
}

/// The transform in closed form: the seed is scaled by the square of `t` and
/// shifted along the skew.
pub proof fn lemma_closed_form(a: real, t: real, seed: real)
    requires
        t != 0real,
    ensures
        raw_coordinate(a, t, seed) == t * t * seed + a * (t * t - 1real),
{
    lemma_shear_ratio(a, t, seed);
}

/// At parameter one the matrix of the transform is the identity, whatever
/// the skew.
pub proof fn lemma_matrix_at_one(a: real)
    ensures
        transform_matrix(a, 1real) == (Mat2 { m11: 1real, m12: 0real, m21: 0real, m22: 1real }),
{
    lemma_unit_entries(a);
}

/// Without skew the matrix of the transform is diagonal, and the transform a
/// pure squeeze: the seed times the square of the parameter.
pub proof fn lemma_without_skew(t: real, seed: real)
    requires
        t != 0real,
    ensures
        transform_matrix(0real, t) == (Mat2 { m11: t, m12: 0real, m21: 0real, m22: 1real / t }),
        raw_coordinate(0real, t, seed) == t * t * seed,
{
    lemma_closed_form(0real, t, seed);
    lemma_shear_without_skew(t, seed);
}

/// At parameter one the trajectory of every configuration passes through its
/// seed.
pub proof fn lemma_identity_at_one(c: ConfigModel)
    ensures
        raw_point(c, 1real) == (c.vx, c.vy),
{
    lemma_closed_form(c.a, 1real, c.vx);
    lemma_closed_form(c.a, 1real, c.vy);
    lemma_shear_at_one(c.a, c.vx);
    lemma_shear_at_one(c.a, c.vy);
}

/// Opposite parameters give the same raw point: the transform depends on `t`
/// through its square alone, so the negative branch retraces the positive
/// one in both coordinates, whatever the skew.
pub proof fn lemma_opposite_parameters_agree(c: ConfigModel, t: real)
    requires
        t != 0real,
    ensures
        raw_point(c, -t) == raw_point(c, t),
{
    lemma_closed_form(c.a, t, c.vx);
    lemma_closed_form(c.a, t, c.vy);
    lemma_closed_form(c.a, -t, c.vx);
    lemma_closed_form(c.a, -t, c.vy);
    lemma_square_of_opposite(t);
}

/// Multiplying `M(a, t)` by a factor other than zero changes no raw
/// coordinate.
pub proof fn lemma_scaled_transform(a: real, t: real, c: real, seed: real)
    requires
        t != 0real,
        c != 0real,
    ensures
        projective_ratio(transform_matrix(a, t).scaled(c).apply((seed, 1real))) == raw_coordinate(
            a,
            t,
            seed,
        ),
{
    let u = 1real / t;
    lemma_shear_ratio(a, t, seed);
    lemma_scaled_ratio(c, t, a * (t - u), 0real, u, seed, 1real);
}

/// A parameter value of the transform: an exact rational other than zero.
#[derive(Clone, Copy, Debug)]
pub struct Param {
    num: i32,
    den: i32,
}

impl View for Param {
    type V = real;

    /// The real number that this parameter stands for.
    open spec fn view(&self) -> real {
        quotient(self.num(), self.den())
    }
}

impl Param {
    #[verifier::type_invariant]
    spec fn inv(self) -> bool {
        self.den > 0 && self.num != 0
    }

    /// The numerator.
    pub closed spec fn num(self) -> int {
        self.num as int
    }

    /// The denominator.
    pub closed spec fn den(self) -> int {
        self.den as int
    }

    /// The parameter `num / den`; there is none unless `den` is positive and
    /// `num` is not zero.
    pub fn new(num: i32, den: i32) -> (r: Option<Param>)
        ensures
            r is Some <==> den > 0 && num != 0,
            r matches Some(t) ==> t.num() == num && t.den() == den && t@ != 0real,
    {
        if den > 0 && num != 0 {
            proof {
                lemma_sign(num as int, den as int);
            }
            Some(Param { num, den })
        } else {
            None
        }
    }

    /// The parameter `num / den` of a numerator other than zero and a positive
    /// denominator.
    pub(crate) fn nonzero(num: i32, den: i32) -> (t: Param)
        requires
            den > 0,
            num != 0,
        ensures
            t.num() == num,
            t.den() == den,
            t@ != 0real,
    {
        proof {
            lemma_sign(num as int, den as int);
        }
        Param { num, den }
    }

    /// The parameter with the value of `r`; there is none where `r` is zero.
    pub fn from_rational(r: &Rational) -> (p: Option<Param>)
        ensures
            p is Some <==> r@ != 0real,
            p matches Some(t) ==> t.num() == r.num() && t.den() == r.den() && t@ == r@,
    {
        let num = r.numer();
        let den = r.denom();
        proof {
            lemma_sign(num as int, den as int);
        }
        if num != 0 {
            Some(Param { num, den })
        } else {
            None
        }
    }

    /// The numerator, which is not zero.
    pub fn numer(&self) -> (n: i32)
        ensures
            n == self.num(),
            n != 0,
            self@ != 0real,
    {
        proof {
            use_type_invariant(self);
            lemma_sign(self.num as int, self.den as int);
        }
        self.num
    }

    /// The denominator, which is positive.
    pub fn denom(&self) -> (d: i32)
        ensures
            d == self.den(),
            d > 0,
    {
        proof {
            use_type_invariant(self);
        }
        self.den
    }
}

/// The factor by which [`Matrix2::new`] multiplies `M(a, t)` to clear its
/// denominators: the product of the numerator and the denominator of `t` and
/// the denominator of `a`.
pub open spec fn clearing_factor(a: Rational, t: Param) -> int {
    t.num() * t.den() * a.den()
}

/// The entries of `M(a, t)` times [`clearing_factor`], row by row.
pub open spec fn cleared_entries(a: Rational, t: Param) -> (int, int, int, int) {
    (
        t.num() * t.num() * a.den(),
        a.num() * (t.num() * t.num() - t.den() * t.den()),
        0,
        t.den() * t.den() * a.den(),
    )
}

/// The two components of the cleared matrix of `a` and `t` times the
/// homogeneous vector `(v.num(), v.den())`.
pub open spec fn cleared_product(a: Rational, t: Param, v: Rational) -> (int, int) {
    let m = cleared_entries(a, t);
    (m.0 * v.num() + m.1 * v.den(), m.2 * v.num() + m.3 * v.den())
}

/// A 2x2 matrix of whole numbers, upper triangular with a positive lower
/// right entry, which maps homogeneous vectors of a positive second
/// component to such vectors.
#[derive(Clone, Copy, Debug)]
pub struct Matrix2 {
    m11: i128,
    m12: i128,
    m21: i128,
    m22: i128,
}

/// The largest magnitude of an entry of a [`Matrix2`], two to the 93.
pub const ENTRY_BOUND: i128 = 0x2000_0000_0000_0000_0000_0000;

impl View for Matrix2 {
    type V = Mat2;

    /// The entries as real numbers.
    open spec fn view(&self) -> Mat2 {
        Mat2 {
            m11: self.entries().0 as real,
            m12: self.entries().1 as real,
            m21: self.entries().2 as real,
            m22: self.entries().3 as real,
        }
    }
}

impl Matrix2 {
    #[verifier::type_invariant]
    spec fn inv(self) -> bool {
        &&& -ENTRY_BOUND <= self.m11 <= ENTRY_BOUND
        &&& -ENTRY_BOUND <= self.m12 <= ENTRY_BOUND
        &&& self.m21 == 0
        &&& 0 < self.m22 <= ENTRY_BOUND
    }

    /// The four entries, row by row.
    pub closed spec fn entries(self) -> (int, int, int, int) {
        (self.m11 as int, self.m12 as int, self.m21 as int, self.m22 as int)
    }

    /// The matrix `M(a, t)` with its denominators cleared.
    pub fn new(a: &Rational, t: &Param) -> (m: Matrix2)
        ensures
            m.entries() == cleared_entries(*a, *t),
            clearing_factor(*a, *t) != 0,
            m@ == transform_matrix(a@, t@).scaled(clearing_factor(*a, *t) as real),
    {
        let an: i128 = a.numer() as i128;
        let ad: i128 = a.denom() as i128;
        let tn: i128 = t.numer() as i128;
        let td: i128 = t.denom() as i128;
        proof {
            lemma_entry_bounds(an as int, ad as int, tn as int, td as int);
            lemma_cleared(an as int, ad as int, tn as int, td as int);
        }
        let tn2: i128 = tn * tn;
        let td2: i128 = td * td;
        let m11: i128 = tn2 * ad;
        let m12: i128 = an * (tn2 - td2);
        let m22: i128 = td2 * ad;
        Matrix2 { m11, m12, m21: 0, m22 }
    }

    /// The four entries, row by row.
    pub fn rows(&self) -> (r: ((i128, i128), (i128, i128)))
        ensures
            (r.0.0 as int, r.0.1 as int, r.1.0 as int, r.1.1 as int) == self.entries(),
    {
        ((self.m11, self.m12), (self.m21, self.m22))
    }

    /// The product of this matrix and the homogeneous vector
    /// `(v.num(), v.den())`, as the ratio of its two components.
    pub fn apply(&self, v: &Rational) -> (r: Ratio)
        ensures
            r.num() == self.entries().0 * v.num() + self.entries().1 * v.den(),
            r.den() == self.entries().2 * v.num() + self.entries().3 * v.den(),
            r@ == projective_ratio(self@.apply((v@, 1real))),
    {
        let p: i128 = v.numer() as i128;
        let q: i128 = v.denom() as i128;
        proof {
            use_type_invariant(self);
            lemma_product_bound(self.m11 as int, p as int);
            lemma_product_bound(self.m12 as int, q as int);
            lemma_product_bound(self.m22 as int, q as int);
            lemma_positive_product(self.m22 as int, q as int);
            lemma_apply_ratio(
                self.m11 as int,
                self.m12 as int,
                self.m22 as int,
                p as int,
                q as int,
            );
        }
        let num: i128 = self.m11 * p + self.m12 * q;
        let den: i128 = self.m22 * q;
        Ratio::positive(num, den)
    }
}

/// A raw point: the two raw coordinates of one parameter value.
#[derive(Clone, Copy, Debug)]
pub struct Point(pub Ratio, pub Ratio);

impl View for Point {
    type V = (real, real);

    /// The two coordinates.
    open spec fn view(&self) -> (real, real) {
        (self.0@, self.1@)
    }
}

/// The raw point at parameter `t` of the trajectory of `config`: `M(a, t)` is
/// applied to the seed of each coordinate, and each product is read as a
/// projective ratio.
pub fn xy(config: &Config, t: &Param) -> (p: Point)
    ensures
        p@ == raw_point(config@, t@),
        (p.0.num(), p.0.den()) == cleared_product(config.spec_a(), *t, config.spec_vx1()),
        (p.1.num(), p.1.den()) == cleared_product(config.spec_a(), *t, config.spec_vy1()),
{
    let a = config.a();
    let vx1 = config.vx1();
    let vy1 = config.vy1();
    let tn = t.numer();
    let m = Matrix2::new(&a, t);
    let vx = m.apply(&vx1);
    let vy = m.apply(&vy1);
    proof {
        let c = clearing_factor(a, *t) as real;
        lemma_scaled_transform(a@, t@, c, vx1@);
        lemma_scaled_transform(a@, t@, c, vy1@);
    }
    Point(vx, vy)
}

/// The matrix of whole numbers that [`Matrix2::new`] computes is `M(a, t)`
/// times the clearing factor.
proof fn lemma_cleared(an: int, ad: int, tn: int, td: int)
    requires
        ad > 0,
        td > 0,
        tn != 0,
    ensures
        tn * td * ad != 0,
        transform_matrix(quotient(an, ad), quotient(tn, td)).scaled((tn * td * ad) as real) == (
        Mat2 {
            m11: (tn * tn * ad) as real,
            m12: (an * (tn * tn - td * td)) as real,
            m21: 0 as real,
            m22: (td * td * ad) as real,
        }),
{
    lemma_cast_mul(tn, td);
    lemma_cast_mul(tn * td, ad);
    lemma_cast_mul(tn, tn);
    lemma_cast_mul(tn * tn, ad);
    lemma_cast_mul(td, td);
    lemma_cast_mul(td * td, ad);
    lemma_cast_mul(an, tn * tn - td * td);
    lemma_cleared_entries(an as real, ad as real, tn as real, td as real);
}

/// An upper triangular matrix of whole numbers applied to `(p, q)` gives the
/// projective ratio of the same matrix applied to `(p / q, 1)`.
proof fn lemma_apply_ratio(m11: int, m12: int, m22: int, p: int, q: int)
    requires
        m22 > 0,
        q > 0,
    ensures
        quotient(m11 * p + m12 * q, 0 * p + m22 * q) == projective_ratio(
            Mat2 { m11: m11 as real, m12: m12 as real, m21: 0 as real, m22: m22 as real }.apply(
                (quotient(p, q), 1real),
            ),
        ),
{
    lemma_cast_mul(m11, p);
    lemma_cast_mul(m12, q);
    lemma_cast_mul(m22, q);
    lemma_homogeneous_ratio(m11 as real, m12 as real, m22 as real, p as real, q as real);
}

} // verus!
