//! The sampler: raw points of a trajectory over grids of parameter values.

use vstd::prelude::*;
use crate::config::{Config, ConfigModel};
use crate::grid::{excludes_zero, hundredths, is_progression, Branch};
use crate::rational::Ratio;
use crate::transform::{raw_point, xy, Param, Point};

verus! {

/// Whether `xs` and `ys` hold, in the order of `ts`, the two raw coordinates
/// of the trajectory of `c` at each parameter of `ts`.
pub open spec fn is_curve(c: ConfigModel, ts: Seq<Param>, xs: Seq<Ratio>, ys: Seq<Ratio>) -> bool {
    &&& xs.len() == ts.len()
    &&& ys.len() == ts.len()
    &&& forall|i: int|
        0 <= i < ts.len() ==> ((#[trigger] xs[i])@, ys[i]@) == raw_point(c, ts[i]@)
}

/// The raw coordinates of the trajectory of `config` at each parameter of
/// `t_values`, first coordinates and second coordinates apart, each in the
/// order of `t_values`.
pub fn compute_curve(config: &Config, t_values: &Vec<Param>) -> (r: (Vec<Ratio>, Vec<Ratio>))
    ensures
        is_curve(config@, t_values@, r.0@, r.1@),
{
    let mut x_values: Vec<Ratio> = Vec::new();
    let mut y_values: Vec<Ratio> = Vec::new();
    let mut i: usize = 0;
    while i < t_values.len()
        invariant
            i <= t_values.len(),
            is_curve(config@, t_values@.take(i as int), x_values@, y_values@),
        decreases t_values.len() - i,
    {
        let Point(x, y) = xy(config, &t_values[i]);
        x_values.push(x);
        y_values.push(y);
        i = i + 1;
    }
    assert(t_values@.take(i as int) == t_values@);
    (x_values, y_values)
}

/// Whether `points` holds, in the order of `ts`, the raw point of the
/// trajectory of `c` at each parameter of `ts`.
pub open spec fn is_trajectory(c: ConfigModel, ts: Seq<Param>, points: Seq<Point>) -> bool {
    &&& points.len() == ts.len()
    &&& forall|i: int| 0 <= i < ts.len() ==> (#[trigger] points[i])@ == raw_point(c, ts[i]@)
}

/// The raw points of the trajectory of `config` at each parameter of
/// `t_values`, in the order of `t_values`.
pub fn compute_points(config: &Config, t_values: &Vec<Param>) -> (points: Vec<Point>)
    ensures
        is_trajectory(config@, t_values@, points@),
{
    let mut points: Vec<Point> = Vec::new();
    let mut i: usize = 0;
    while i < t_values.len()
        invariant
            i <= t_values.len(),
            is_trajectory(config@, t_values@.take(i as int), points@),
        decreases t_values.len() - i,
    {
        points.push(xy(config, &t_values[i]));
        i = i + 1;
    }
    assert(t_values@.take(i as int) == t_values@);
    points
}

/// One branch of a curve: the parameters of a grid and the raw coordinates of
/// the trajectory at each of them.
#[derive(Debug)]
pub struct Series {
    /// The first raw coordinates.
    pub x: Vec<Ratio>,
    /// The second raw coordinates.
    pub y: Vec<Ratio>,
    /// The parameters.
    pub t: Vec<Param>,
    /// The side of zero on which the parameters lie.
    pub branch: Branch,
}

impl Series {
    /// Whether this is the branch `branch` of the trajectory of `c`, sampled
    /// on the grid of hundredths.
    pub open spec fn is_branch_of(self, c: ConfigModel, branch: Branch) -> bool {
        &&& self.branch == branch
        &&& excludes_zero(self.t@)
        &&& branch == Branch::Negative ==> is_progression(self.t@, -500, 1, 100, 499)
        &&& branch == Branch::Positive ==> is_progression(self.t@, 1, 1, 100, 499)
        &&& is_curve(c, self.t@, self.x@, self.y@)
    }
}

/// The two branches of the trajectory of `config`, the negative one first,
/// each sampled on its grid of hundredths.
pub fn get_plot_data(config: &Config) -> (data: (Series, Series))
    ensures
        data.0.is_branch_of(config@, Branch::Negative),
        data.1.is_branch_of(config@, Branch::Positive),
{
    let t_neg = hundredths(Branch::Negative);
    let t_pos = hundredths(Branch::Positive);
    let (x_neg, y_neg) = compute_curve(config, &t_neg);
    let (x_pos, y_pos) = compute_curve(config, &t_pos);
    (
        Series { x: x_neg, y: y_neg, t: t_neg, branch: Branch::Negative },
        Series { x: x_pos, y: y_pos, t: t_pos, branch: Branch::Positive },
    )
}

} // verus!
