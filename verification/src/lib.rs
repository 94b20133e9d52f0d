//! Natural cubic-spline fitting and evaluation.
//!
//! The crate fits a natural cubic spline through a sequence of sample
//! points and evaluates the fitted curve into a caller-supplied buffer.
//! Every scalar is the bit pattern of an IEEE-754 single-precision value,
//! carried in a `u32`; the arithmetic is performed through the `arith`
//! module and every function's contract states its result exactly in
//! terms of the named arithmetic operations.

pub mod arith;
pub mod coefficients;
pub mod fit;
pub mod sampler;
pub mod system;
pub mod thomas_algorithm;

pub use fit::splinterpol;
pub use sampler::plot_coeffs_into;

use vstd::prelude::*;

verus! {

/// The possible errors of this crate.
#[derive(Debug, Clone, Copy, PartialEq, Eq, Structural)]
pub enum Error {
    /// A sequence of invalid length was passed.
    InvalidSliceLength,
}

} // verus!
