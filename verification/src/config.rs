//! The configuration of one evaluation.

use vstd::prelude::*;
use crate::compressor::{check_scale, DomainError};
use crate::rational::Rational;

verus! {

/// What a [`Config`] stands for.
pub struct ConfigModel {
    /// The skew coefficient.
    pub a: real,
    /// The compression scale.
    pub k: real,
    /// The raw first coordinate of the seed.
    pub vx: real,
    /// The raw second coordinate of the seed.
    pub vy: real,
}

/// A skew coefficient, a compression scale other than zero, and the seed of
/// the trajectory as two homogeneous vectors: the numerator and the
/// denominator of a raw coordinate are the two components of its vector.
#[derive(Clone, Copy, Debug)]
pub struct Config {
    a: Rational,
    k: Rational,
    vx1: Rational,
    vy1: Rational,
}

impl View for Config {
    type V = ConfigModel;

    open spec fn view(&self) -> ConfigModel {
        ConfigModel {
            a: self.spec_a()@,
            k: self.spec_k()@,
            vx: self.spec_vx1()@,
            vy: self.spec_vy1()@,
        }
    }
}

impl Config {
    #[verifier::type_invariant]
    spec fn inv(self) -> bool {
        self.k@ != 0real
    }

    /// The skew coefficient.
    pub closed spec fn spec_a(self) -> Rational {
        self.a
    }

    /// The compression scale.
    pub closed spec fn spec_k(self) -> Rational {
        self.k
    }

    /// The homogeneous seed of the first coordinate.
    pub closed spec fn spec_vx1(self) -> Rational {
        self.vx1
    }

    /// The homogeneous seed of the second coordinate.
    pub closed spec fn spec_vy1(self) -> Rational {
        self.vy1
    }

    /// The configuration of skew `a` and scale `k` whose trajectory starts at
    /// the raw point `(vx, vy)`, or `ZeroScale` where `k` is zero.
    pub fn new(a: Rational, k: Rational, vx: Rational, vy: Rational) -> (r: Result<
        Config,
        DomainError,
    >)
        ensures
            r is Ok <==> k@ != 0real,
            r matches Ok(c) ==> c.spec_a() == a && c.spec_k() == k && c.spec_vx1() == vx
                && c.spec_vy1() == vy,
            r matches Err(e) ==> e == DomainError::ZeroScale,
    {
        match check_scale(&k) {
            Err(e) => Err(e),
            Ok(_) => Ok(Config { a, k, vx1: vx, vy1: vy }),
        }
    }

    /// The configuration of skew `a` and a scale `k` other than zero whose
    /// trajectory starts at the raw point `(vx, vy)`.
    pub(crate) fn with_scale(a: Rational, k: Rational, vx: Rational, vy: Rational) -> (c: Config)
        requires
            k@ != 0real,
        ensures
            c.spec_a() == a,
            c.spec_k() == k,
            c.spec_vx1() == vx,
            c.spec_vy1() == vy,
    {
        Config { a, k, vx1: vx, vy1: vy }
    }

    /// The skew coefficient.
    pub fn a(&self) -> (r: Rational)
        ensures
            r == self.spec_a(),
    {
        self.a
    }

    /// The compression scale, which is not zero.
    pub fn k(&self) -> (r: Rational)
        ensures
            r == self.spec_k(),
            r@ != 0real,
    {
        proof {
            use_type_invariant(self);
        }
        self.k
    }

    /// The homogeneous seed of the first coordinate.
    pub fn vx1(&self) -> (r: Rational)
        ensures
            r == self.spec_vx1(),
    {
        self.vx1
    }

    /// The homogeneous seed of the second coordinate.
    pub fn vy1(&self) -> (r: Rational)
        ensures
            r == self.spec_vy1(),
    {
        self.vy1
    }
}

} // verus!
