//! The domain of the coordinate compressor.
//!
//! A raw coordinate `x` is displayed as `tanh(k x)`, and a displayed
//! coordinate `u` stands for the raw coordinate `atanh(u) / k`.  The second
//! map is defined only for a scale `k` other than zero and for `u` strictly
//! between -1 and 1.  The hyperbolic functions themselves have no exact
//! rational values, so this module decides the domain and leaves their
//! evaluation to the caller.

use vstd::prelude::*;
use crate::rational::Rational;

verus! {

/// Why a scale or a displayed point is outside the domain of the compressor.
#[derive(Clone, Copy, Debug, PartialEq, Eq, Structural)]
pub enum DomainError {
    /// The compression scale is zero.
    ZeroScale,
    /// A displayed coordinate is not strictly between -1 and 1.
    OutOfRange,
}

/// Whether `u` is a displayed coordinate: strictly between -1 and 1.
pub open spec fn in_display_range(u: real) -> bool {
    -1real < u < 1real
}

/// Whether the displayed coordinate `u` stands for a raw coordinate under the
/// scale `k`.
pub open spec fn decompress_defined(k: real, u: real) -> bool {
    k != 0real && in_display_range(u)
}

/// Accepts a compression scale that is not zero.
pub fn check_scale(k: &Rational) -> (r: Result<(), DomainError>)
    ensures
        r is Ok <==> k@ != 0real,
        r is Err ==> r == Err::<(), DomainError>(DomainError::ZeroScale),
{
    if k.is_zero() {
        Err(DomainError::ZeroScale)
    } else {
        Ok(())
    }
}

/// A point of the display region: both coordinates strictly between -1 and 1.
#[derive(Clone, Copy, Debug)]
pub struct DisplayPoint {
    x: Rational,
    y: Rational,
}

impl View for DisplayPoint {
    type V = (real, real);

    /// The two coordinates.
    open spec fn view(&self) -> (real, real) {
        (self.spec_x()@, self.spec_y()@)
    }
}

impl DisplayPoint {
    #[verifier::type_invariant]
    spec fn inv(self) -> bool {
        in_display_range(self.x@) && in_display_range(self.y@)
    }

    /// The first coordinate.
    pub closed spec fn spec_x(self) -> Rational {
        self.x
    }

    /// The second coordinate.
    pub closed spec fn spec_y(self) -> Rational {
        self.y
    }

    /// The displayed point `(x, y)`, or `OutOfRange` where a coordinate is not
    /// strictly between -1 and 1.
    pub fn new(x: Rational, y: Rational) -> (r: Result<DisplayPoint, DomainError>)
        ensures
            r is Ok <==> in_display_range(x@) && in_display_range(y@),
            r matches Ok(p) ==> p.spec_x() == x && p.spec_y() == y,
            r matches Err(e) ==> e == DomainError::OutOfRange,
    {
        if x.is_within_unit() && y.is_within_unit() {
            Ok(DisplayPoint { x, y })
        } else {
            Err(DomainError::OutOfRange)
        }
    }

    /// The first coordinate, strictly between -1 and 1.
    pub fn x(&self) -> (r: Rational)
        ensures
            r == self.spec_x(),
            in_display_range(r@),
    {
        proof {
            use_type_invariant(self);
        }
        self.x
    }

    /// The second coordinate, strictly between -1 and 1.
    pub fn y(&self) -> (r: Rational)
        ensures
            r == self.spec_y(),
            in_display_range(r@),
    {
        proof {
            use_type_invariant(self);
        }
        self.y
    }
}

/// Accepts a scale and a displayed starting point from which a seed can be
/// derived: the scale is checked first, then the point.
pub fn check_start(k: &Rational, x0: Rational, y0: Rational) -> (r: Result<
    DisplayPoint,
    DomainError,
>)
    ensures
        r is Ok <==> decompress_defined(k@, x0@) && decompress_defined(k@, y0@),
        r matches Ok(p) ==> p.spec_x() == x0 && p.spec_y() == y0,
        r matches Err(e) ==> (e == DomainError::ZeroScale <==> k@ == 0real),
{
    match check_scale(k) {
        Err(e) => Err(e),
        Ok(_) => DisplayPoint::new(x0, y0),
    }
}

} // verus!
