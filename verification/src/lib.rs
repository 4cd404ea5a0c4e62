//! Sample points along a one-parameter family of plane curves, in exact
//! rational arithmetic.
//!
//! A curve of the family is the trajectory of a seed under a shear and
//! squeeze of the projective line, sampled on two grids of parameter values:
//! one below zero and one above, since the transform has no value at zero.
//! The points are raw: a caller that shows them compresses each coordinate
//! `x` into the display region as `tanh(k x)`, and finds the seed of a
//! displayed start `u` as `atanh(u) / k`.  Those two functions have no exact
//! rational values and are not part of this library, which decides their
//! domain and computes everything between them.
//!
//! Numbers come in as ratios of 32-bit terms and go out as ratios of 128-bit
//! terms; a product of four terms that came in fits in what goes out, so that
//! no operation of the library overflows or rounds.
//!
//! - [`rational`]: the two kinds of ratio and their view as real numbers;
//! - [`compressor`]: the domain of the compression scale and of displayed
//!   points;
//! - [`config`]: skew, scale and seed of one evaluation;
//! - [`transform`]: the matrix of the transform, its application and its laws;
//! - [`grid`]: arithmetic progressions of parameters on one side of zero;
//! - [`sampler`]: raw points over a grid, and the two branches of a curve;
//! - [`curve_data`]: a curve of fixed scale and seed that is computed again
//!   whenever its skew changes;
//! - [`algebra`]: the facts of arithmetic that the proofs rest on.

pub mod algebra;
pub mod compressor;
pub mod config;
pub mod curve_data;
pub mod grid;
pub mod rational;
pub mod sampler;
pub mod transform;
