//! Grids of parameter values.
//!
//! A grid is an arithmetic progression of exact rationals on one side of
//! zero: the transform has no value at zero, so no grid holds it, and the two
//! branches of a curve are sampled on two grids, one of each sign.

use vstd::prelude::*;
use crate::algebra::{lemma_progression, lemma_quotient_difference, lemma_span_bound};
use crate::rational::{lemma_sign, quotient};
use crate::transform::Param;

verus! {

/// One of the two sides of zero on which a curve is sampled.
#[derive(Clone, Copy, Debug, PartialEq, Eq, Structural)]
pub enum Branch {
    /// The parameters below zero.
    Negative,
    /// The parameters above zero.
    Positive,
}

impl Branch {
    /// The name under which the branch is shown.
    pub fn label(&self) -> (s: &'static str)
        ensures
            s@ == (match *self {
                Branch::Negative => "Negative t"@,
                Branch::Positive => "Positive t"@,
            }),
    {
        match self {
            Branch::Negative => "Negative t",
            Branch::Positive => "Positive t",
        }
    }
}

/// Why a progression is no grid.
#[derive(Clone, Copy, Debug, PartialEq, Eq, Structural)]
pub enum GridError {
    /// The common denominator is not positive.
    NonPositiveDenominator,
    /// The step is not positive.
    NonPositiveStep,
    /// The last numerator does not fit in 32 bits.
    OutOfRange,
    /// Zero lies between the first value and the last.
    CrossesZero,
}

/// The numerator of value `i` of the progression that starts at `first` and
/// grows by `step`.
pub open spec fn grid_numerator(first: int, step: int, i: int) -> int {
    first + i * step
}

/// What stops the progression of `count` values `(first + i step) / den` from
/// being a grid, if anything does: the conditions are tried in this order.
pub open spec fn grid_error(first: int, step: int, den: int, count: int) -> Option<GridError> {
    let last = grid_numerator(first, step, count - 1);
    if den <= 0 {
        Some(GridError::NonPositiveDenominator)
    } else if step <= 0 {
        Some(GridError::NonPositiveStep)
    } else if count > 0 && last > i32::MAX {
        Some(GridError::OutOfRange)
    } else if count > 0 && first <= 0 <= last {
        Some(GridError::CrossesZero)
    } else {
        None
    }
}

/// Whether `grid` holds the `count` values `(first + i step) / den` in order.
pub open spec fn is_progression(grid: Seq<Param>, first: int, step: int, den: int, count: int)
    -> bool {
    &&& grid.len() == count
    &&& forall|i: int|
        0 <= i < count ==> (#[trigger] grid[i]).num() == grid_numerator(first, step, i)
            && grid[i].den() == den
}

/// Whether no value of `grid` is zero.
pub open spec fn excludes_zero(grid: Seq<Param>) -> bool {
    forall|i: int| 0 <= i < grid.len() ==> (#[trigger] grid[i])@ != 0real
}

/// The grid of the `count` values `(first + i step) / den`, or the reason
/// why there is none.
pub fn linear_grid(first: i32, step: i32, den: i32, count: usize) -> (r: Result<
    Vec<Param>,
    GridError,
>)
    ensures
        r is Ok <==> grid_error(first as int, step as int, den as int, count as int) is None,
        r matches Err(e) ==> grid_error(first as int, step as int, den as int, count as int)
            == Some(e),
        r matches Ok(grid) ==> excludes_zero(grid@) && is_progression(
            grid@,
            first as int,
            step as int,
            den as int,
            count as int,
        ),
{
    if den <= 0 {
        return Err(GridError::NonPositiveDenominator);
    }
    if step <= 0 {
        return Err(GridError::NonPositiveStep);
    }
    if count == 0 {
        return Ok(Vec::new());
    }
    proof {
        lemma_span_bound(count as int - 1, step as int);
    }
    let last: i128 = first as i128 + (count as i128 - 1) * (step as i128);
    if last > i32::MAX as i128 {
        return Err(GridError::OutOfRange);
    }
    if first <= 0 && 0 <= last {
        return Err(GridError::CrossesZero);
    }
    Ok(progression(first, step, den, count))
}

/// The grid of a progression that nothing stops from being one.
pub(crate) fn progression(first: i32, step: i32, den: i32, count: usize) -> (grid: Vec<Param>)
    requires
        grid_error(first as int, step as int, den as int, count as int) is None,
    ensures
        excludes_zero(grid@),
        is_progression(grid@, first as int, step as int, den as int, count as int),
{
    let mut grid: Vec<Param> = Vec::new();
    let mut num: i32 = first;
    let mut i: usize = 0;
    while i < count
        invariant
            grid_error(first as int, step as int, den as int, count as int) is None,
            i <= count,
            i < count ==> num == grid_numerator(first as int, step as int, i as int),
            is_progression(grid@, first as int, step as int, den as int, i as int),
        decreases count - i,
    {
        proof {
            lemma_progression(first as int, step as int, i as int, count as int - 1);
            if i + 1 < count {
                lemma_progression(first as int, step as int, i as int + 1, count as int - 1);
            }
        }
        grid.push(Param::nonzero(num, den));
        i = i + 1;
        if i < count {
            num = num + step;
        }
    }
    proof {
        lemma_grid_is_one_sided(grid@, first as int, step as int, den as int, count as int);
    }
    grid
}

/// The number of values of each grid of hundredths.
pub const HUNDREDTHS: usize = 499;

/// The number of values of each evenly spaced grid.
pub const EVEN_SPACING: usize = 500;

/// The grid of hundredths of one branch: from -5 up to -0.02 below zero, from
/// 0.01 up to 4.99 above.
pub fn hundredths(branch: Branch) -> (grid: Vec<Param>)
    ensures
        excludes_zero(grid@),
        branch == Branch::Negative ==> is_progression(grid@, -500, 1, 100, 499),
        branch == Branch::Positive ==> is_progression(grid@, 1, 1, 100, 499),
{
    match branch {
        Branch::Negative => progression(-500, 1, 100, HUNDREDTHS),
        Branch::Positive => progression(1, 1, 100, HUNDREDTHS),
    }
}

/// The grid of 500 evenly spaced values of one branch: from -5 up to -0.1
/// below zero, from 0.1 up to 5 above.  Value `i` is `-5 + 4.9 i / 499` below
/// zero and `0.1 + 4.9 i / 499` above.
pub fn even_spacing(branch: Branch) -> (grid: Vec<Param>)
    ensures
        excludes_zero(grid@),
        branch == Branch::Negative ==> is_progression(grid@, -24950, 49, 4990, 500),
        branch == Branch::Positive ==> is_progression(grid@, 499, 49, 4990, 500),
{
    match branch {
        Branch::Negative => progression(-24950, 49, 4990, EVEN_SPACING),
        Branch::Positive => progression(499, 49, 4990, EVEN_SPACING),
    }
}

/// The values of a grid are in strictly increasing order, all on one side of
/// zero, and none of them is zero.
pub proof fn lemma_grid_is_one_sided(grid: Seq<Param>, first: int, step: int, den: int, count: int)
    requires
        grid_error(first, step, den, count) is None,
        is_progression(grid, first, step, den, count),
    ensures
        forall|i: int, j: int| 0 <= i < j < count ==> (#[trigger] grid[i])@ < (#[trigger] grid[j])@,
        forall|i: int| 0 <= i < count ==> (#[trigger] grid[i])@ != 0real,
        forall|i: int| 0 <= i < count ==> ((#[trigger] grid[i])@ > 0real <==> first > 0),
{
    assert forall|i: int, j: int| 0 <= i < j < count implies (#[trigger] grid[i])@ < (
    #[trigger] grid[j])@ by {
        lemma_progression(first, step, i, j);
        lemma_same_denominator(grid[i].num(), grid[j].num(), den);
    }
    assert forall|i: int| 0 <= i < count implies (#[trigger] grid[i])@ != 0real && (grid[i]@
        > 0real <==> first > 0) by {
        lemma_progression(first, step, i, count - 1);
        lemma_sign(grid[i].num(), den);
    }
}

/// The values of the grids of hundredths: value `i` is `-5 + i / 100` below
/// zero and `(1 + i) / 100` above.
pub proof fn lemma_hundredths_values(i: int)
    ensures
        quotient(grid_numerator(-500, 1, i), 100) == -5real + i as real / 100real,
        quotient(grid_numerator(1, 1, i), 100) == (1 + i) as real / 100real,
{
    let n = grid_numerator(-500, 1, i);
    assert(n == -500 + i);
    assert(n as real == -500real + i as real);
    assert(100 as real == 100real);
    assert(quotient(n, 100) == (n as real) / 100real);
    assert((-500real + i as real) / 100real == -5real + i as real / 100real);
}

/// The values of the evenly spaced grids: value `i` is `-5 + 4.9 i / 499`
/// below zero and `0.1 + 4.9 i / 499` above, so that the 500 values run from
/// -5 to -0.1 and from 0.1 to 5.
pub proof fn lemma_even_spacing_values(i: int)
    ensures
        quotient(grid_numerator(-24950, 49, i), 4990) == -5real + (49real / 10real) * (i as real)
            / 499real,
        quotient(grid_numerator(499, 49, i), 4990) == 1real / 10real + (49real / 10real) * (
        i as real) / 499real,
        quotient(grid_numerator(-24950, 49, 499), 4990) == -1real / 10real,
        quotient(grid_numerator(499, 49, 499), 4990) == 5real,
{
    let x = i as real;
    let below = grid_numerator(-24950, 49, i);
    let above = grid_numerator(499, 49, i);
    assert(below as real == -24950real + 49real * x);
    assert(above as real == 499real + 49real * x);
    assert(4990 as real == 4990real);
    assert(quotient(below, 4990) == (below as real) / 4990real);
    assert(quotient(above, 4990) == (above as real) / 4990real);
    assert((-24950real + 49real * x) / 4990real == -5real + (49real / 10real) * x / 499real);
    assert((499real + 49real * x) / 4990real == 1real / 10real + (49real / 10real) * x / 499real);
    assert(grid_numerator(-24950, 49, 499) == -499);
    assert(grid_numerator(499, 49, 499) == 24950);
    assert(quotient(-499, 4990) == (-499real) / 4990real);
    assert(quotient(24950, 4990) == 24950real / 4990real);
}

/// Ratios of one positive denominator are ordered as their numerators are.
proof fn lemma_same_denominator(m: int, n: int, d: int)
    requires
        d > 0,
        m < n,
    ensures
        quotient(m, d) < quotient(n, d),
{
    lemma_sign(n - m, d);
    lemma_quotient_difference(n as real, m as real, d as real);
}

} // verus!
