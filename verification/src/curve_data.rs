//! A curve that is computed again whenever its skew changes.
//!
//! The scale, the seed and the two grids are fixed when the value is made;
//! each computation replaces the raw points of both branches.

use vstd::prelude::*;
use crate::config::{Config, ConfigModel};
use crate::grid::{even_spacing, excludes_zero, is_progression, Branch};
use crate::rational::{lemma_sign, Rational};
use crate::sampler::{compute_points, is_trajectory};
use crate::transform::{Param, Point};

verus! {

/// The two evenly spaced grids of a curve, its scale and its seed, with the
/// raw points of the last computation.
#[derive(Debug)]
pub struct CurveData {
    neg_points: Vec<Point>,
    pos_points: Vec<Point>,
    t_neg: Vec<Param>,
    t_pos: Vec<Param>,
    k: Rational,
    vx1: Rational,
    vy1: Rational,
}

impl CurveData {
    #[verifier::type_invariant]
    spec fn inv(self) -> bool {
        &&& self.k@ != 0real
        &&& self.grids_are_even()
    }

    /// Whether the two grids are the evenly spaced ones: 500 values from -5
    /// up to -0.1 and 500 values from 0.1 up to 5, none of them zero.
    pub open spec fn grids_are_even(self) -> bool {
        &&& is_progression(self.spec_t_neg(), -24950, 49, 4990, 500)
        &&& is_progression(self.spec_t_pos(), 499, 49, 4990, 500)
        &&& excludes_zero(self.spec_t_neg())
        &&& excludes_zero(self.spec_t_pos())
    }

    /// The raw points of the negative branch.
    pub closed spec fn spec_neg_points(self) -> Seq<Point> {
        self.neg_points@
    }

    /// The raw points of the positive branch.
    pub closed spec fn spec_pos_points(self) -> Seq<Point> {
        self.pos_points@
    }

    /// The grid of the negative branch.
    pub closed spec fn spec_t_neg(self) -> Seq<Param> {
        self.t_neg@
    }

    /// The grid of the positive branch.
    pub closed spec fn spec_t_pos(self) -> Seq<Param> {
        self.t_pos@
    }

    /// The compression scale.
    pub closed spec fn spec_k(self) -> Rational {
        self.k
    }

    /// The homogeneous seed of the first coordinate.
    pub closed spec fn spec_vx1(self) -> Rational {
        self.vx1
    }

    /// The homogeneous seed of the second coordinate.
    pub closed spec fn spec_vy1(self) -> Rational {
        self.vy1
    }

    /// The configuration under which a skew of value `a` is computed.
    pub open spec fn model(self, a: real) -> ConfigModel {
        ConfigModel { a, k: self.spec_k()@, vx: self.spec_vx1()@, vy: self.spec_vy1()@ }
    }

    /// A curve of scale 1/2 whose trajectory starts at the raw point `(0, 1)`,
    /// on the evenly spaced grids, with no point computed yet.
    pub fn new() -> (data: CurveData)
        ensures
            data.grids_are_even(),
            data.spec_neg_points().len() == 0,
            data.spec_pos_points().len() == 0,
            data.spec_k().num() == 1 && data.spec_k().den() == 2,
            data.spec_vx1().num() == 0 && data.spec_vx1().den() == 1,
            data.spec_vy1().num() == 1 && data.spec_vy1().den() == 1,
    {
        let t_neg = even_spacing(Branch::Negative);
        let t_pos = even_spacing(Branch::Positive);
        proof {
            lemma_sign(1, 2);
        }
        CurveData {
            neg_points: Vec::new(),
            pos_points: Vec::new(),
            t_neg,
            t_pos,
            k: Rational::positive(1, 2),
            vx1: Rational::from_int(0),
            vy1: Rational::from_int(1),
        }
    }

    /// Computes the raw points of both branches for the skew `a`.  The grids,
    /// the scale and the seed stay as they are.
    pub fn compute(&mut self, a: Rational)
        ensures
            final(self).spec_t_neg() == old(self).spec_t_neg(),
            final(self).spec_t_pos() == old(self).spec_t_pos(),
            final(self).spec_k() == old(self).spec_k(),
            final(self).spec_vx1() == old(self).spec_vx1(),
            final(self).spec_vy1() == old(self).spec_vy1(),
            is_trajectory(
                old(self).model(a@),
                old(self).spec_t_neg(),
                final(self).spec_neg_points(),
            ),
            is_trajectory(
                old(self).model(a@),
                old(self).spec_t_pos(),
                final(self).spec_pos_points(),
            ),
    {
        proof {
            use_type_invariant(&*self);
        }
        let config = Config::with_scale(a, self.k, self.vx1, self.vy1);
        let neg_points = compute_points(&config, &self.t_neg);
        let pos_points = compute_points(&config, &self.t_pos);
        self.neg_points = neg_points;
        self.pos_points = pos_points;
    }

    /// The number of values of each grid, which is 500.
    pub fn len(&self) -> (n: usize)
        ensures
            n == 500,
            n == self.spec_t_neg().len(),
            n == self.spec_t_pos().len(),
    {
        proof {
            use_type_invariant(self);
        }
        self.t_neg.len()
    }

    /// The raw points of the negative branch, as the last computation left
    /// them.
    pub fn neg_points(&self) -> (points: &Vec<Point>)
        ensures
            points@ == self.spec_neg_points(),
    {
        &self.neg_points
    }

    /// The raw points of the positive branch, as the last computation left
    /// them.
    pub fn pos_points(&self) -> (points: &Vec<Point>)
        ensures
            points@ == self.spec_pos_points(),
    {
        &self.pos_points
    }

    /// The grid of the negative branch.
    pub fn t_neg(&self) -> (grid: &Vec<Param>)
        ensures
            grid@ == self.spec_t_neg(),
            self.grids_are_even(),
    {
        proof {
            use_type_invariant(self);
        }
        &self.t_neg
    }

    /// The grid of the positive branch.
    pub fn t_pos(&self) -> (grid: &Vec<Param>)
        ensures
            grid@ == self.spec_t_pos(),
            self.grids_are_even(),
    {
        proof {
            use_type_invariant(self);
        }
        &self.t_pos
    }

    /// The compression scale, which is not zero.
    pub fn k(&self) -> (k: Rational)
        ensures
            k == self.spec_k(),
            k@ != 0real,
    {
        proof {
            use_type_invariant(self);
        }
        self.k
    }
}

} // verus!
