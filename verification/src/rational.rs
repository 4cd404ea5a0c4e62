//! Exact rational numbers.
//!
//! Every quantity of the curve family is a ratio of two machine integers, so
//! that the arithmetic of the library is exact.  A [`Rational`] is a narrow
//! ratio that callers construct; a [`Ratio`] is a wide one that the library
//! hands back.  Both are read in contracts through their view, a `real`.

use vstd::prelude::*;
use crate::algebra::lemma_cast_mul;

verus! {

/// The real number `n / d`.
pub open spec fn quotient(n: int, d: int) -> real {
    n as real / d as real
}

/// An exact rational number `num / den` with a positive denominator.
#[derive(Clone, Copy, Debug)]
pub struct Rational {
    num: i32,
    den: i32,
}

impl View for Rational {
    type V = real;

    /// The real number that this ratio stands for.
    open spec fn view(&self) -> real {
        quotient(self.num(), self.den())
    }
}

impl Rational {
    #[verifier::type_invariant]
    spec fn inv(self) -> bool {
        self.den > 0
    }

    /// The numerator.
    pub closed spec fn num(self) -> int {
        self.num as int
    }

    /// The denominator.
    pub closed spec fn den(self) -> int {
        self.den as int
    }

    /// The ratio `num / den`; there is none unless `den` is positive.
    pub fn new(num: i32, den: i32) -> (r: Option<Rational>)
        ensures
            r is Some <==> den > 0,
            r matches Some(q) ==> q.num() == num && q.den() == den,
    {
        if den > 0 {
            Some(Rational { num, den })
        } else {
            None
        }
    }

    /// The ratio `num / den` of a numerator and a positive denominator.
    pub(crate) fn positive(num: i32, den: i32) -> (r: Rational)
        requires
            den > 0,
        ensures
            r.num() == num,
            r.den() == den,
    {
        Rational { num, den }
    }

    /// The whole number `n`.
    pub fn from_int(n: i32) -> (r: Rational)
        ensures
            r.num() == n,
            r.den() == 1,
            r@ == n as real,
    {
        proof {
            lemma_compare_with_int(n as int, 1, n as int);
        }
        Rational { num: n, den: 1 }
    }

    /// The numerator.
    pub fn numer(&self) -> (n: i32)
        ensures
            n == self.num(),
    {
        self.num
    }

    /// The denominator, which is positive.
    pub fn denom(&self) -> (d: i32)
        ensures
            d == self.den(),
            d > 0,
    {
        proof {
            use_type_invariant(self);
        }
        self.den
    }

    /// Whether this ratio is zero.
    pub fn is_zero(&self) -> (b: bool)
        ensures
            b <==> self@ == 0real,
    {
        proof {
            use_type_invariant(self);
            lemma_sign(self.num as int, self.den as int);
        }
        self.num == 0
    }

    /// Whether this ratio lies strictly between -1 and 1.
    pub fn is_within_unit(&self) -> (b: bool)
        ensures
            b <==> -1real < self@ < 1real,
    {
        proof {
            use_type_invariant(self);
            lemma_compare_with_int(self.num as int, self.den as int, 1);
            lemma_compare_with_int(self.num as int, self.den as int, -1);
        }
        -self.den < self.num && self.num < self.den
    }
}

/// An exact rational number `num / den` that the library computed: a wide
/// ratio with a positive denominator, not reduced to lowest terms.
#[derive(Clone, Copy, Debug)]
pub struct Ratio {
    num: i128,
    den: i128,
}

impl View for Ratio {
    type V = real;

    /// The real number that this ratio stands for.
    open spec fn view(&self) -> real {
        quotient(self.num(), self.den())
    }
}

impl Ratio {
    #[verifier::type_invariant]
    spec fn inv(self) -> bool {
        self.den > 0
    }

    /// The numerator.
    pub closed spec fn num(self) -> int {
        self.num as int
    }

    /// The denominator.
    pub closed spec fn den(self) -> int {
        self.den as int
    }

    /// The ratio `num / den`; there is none unless `den` is positive.
    pub fn new(num: i128, den: i128) -> (r: Option<Ratio>)
        ensures
            r is Some <==> den > 0,
            r matches Some(q) ==> q.num() == num && q.den() == den,
    {
        if den > 0 {
            Some(Ratio { num, den })
        } else {
            None
        }
    }

    /// The ratio `num / den` of a numerator and a positive denominator.
    pub(crate) fn positive(num: i128, den: i128) -> (r: Ratio)
        requires
            den > 0,
        ensures
            r.num() == num,
            r.den() == den,
    {
        Ratio { num, den }
    }

    /// The numerator.
    pub fn numer(&self) -> (n: i128)
        ensures
            n == self.num(),
    {
        self.num
    }

    /// The denominator, which is positive.
    pub fn denom(&self) -> (d: i128)
        ensures
            d == self.den(),
            d > 0,
    {
        proof {
            use_type_invariant(self);
        }
        self.den
    }
}

/// The sign of `n / d` is the sign of `n` when `d` is positive.
pub proof fn lemma_sign(n: int, d: int)
    requires
        d > 0,
    ensures
        quotient(n, d) == 0real <==> n == 0,
        quotient(n, d) > 0real <==> n > 0,
        quotient(n, d) < 0real <==> n < 0,
{
    let nr = n as real;
    let dr = d as real;
    assert(dr > 0real);
    assert((nr / dr == 0real <==> nr == 0real) && (nr / dr > 0real <==> nr > 0real) && (nr / dr
        < 0real <==> nr < 0real)) by (nonlinear_arith)
        requires
            dr > 0real,
    ;
}

/// Comparing `n / d` with a whole number `c` is comparing `n` with `c * d`
/// when `d` is positive.
pub proof fn lemma_compare_with_int(n: int, d: int, c: int)
    requires
        d > 0,
    ensures
        quotient(n, d) == c as real <==> n == c * d,
        quotient(n, d) < (c as real) <==> n < c * d,
        quotient(n, d) > c as real <==> n > c * d,
{
    let nr = n as real;
    let dr = d as real;
    let cr = c as real;
    lemma_cast_mul(c, d);
    assert((nr / dr == cr <==> nr == cr * dr) && (nr / dr < cr <==> nr < cr * dr) && (nr / dr
        > cr <==> nr > cr * dr)) by (nonlinear_arith)
        requires
            dr > 0real,
    ;
}

} // verus!
