//! IEEE-754 arithmetic on raw bit patterns.
//!
//! Every scalar handled by this crate is the bit pattern of an IEEE-754
//! single-precision value held in a `u32` (the sampler's step computation
//! additionally goes through double precision, held in a `u64`).  The
//! arithmetic itself is done by the `rustc_apfloat` library, a pure-Rust
//! implementation of exactly the IEEE-754 operations; each operation is
//! named here by an uninterpreted spec function, and the contracts of the
//! rest of the crate pin their results down in terms of those names.

use rustc_apfloat::ieee::Double;
use rustc_apfloat::ieee::Single;
use rustc_apfloat::Float;
use rustc_apfloat::FloatConvert;
use vstd::prelude::*;

verus! {

/// Bit pattern of the single-precision value 2.0.
pub const BITS_TWO: u32 = 0x4000_0000;

/// Bit pattern of the single-precision value 3.0.
pub const BITS_THREE: u32 = 0x4040_0000;

/// Bit pattern of the single-precision value 0.5.
pub const BITS_HALF: u32 = 0x3f00_0000;

/// The single-precision sum of two bit patterns.
pub uninterp spec fn fadd32(a: u32, b: u32) -> u32;

/// The single-precision difference of two bit patterns.
pub uninterp spec fn fsub32(a: u32, b: u32) -> u32;

/// The single-precision product of two bit patterns.
pub uninterp spec fn fmul32(a: u32, b: u32) -> u32;

/// The single-precision quotient of two bit patterns.
pub uninterp spec fn fdiv32(a: u32, b: u32) -> u32;

/// Whether one single-precision bit pattern compares strictly below another.
pub uninterp spec fn flt32(a: u32, b: u32) -> bool;

/// The unsigned integer a single-precision bit pattern converts to
/// (rounded toward zero, saturating, zero for NaN).
pub uninterp spec fn ftrunc32(a: u32) -> u32;

/// The single-precision bit pattern nearest to an unsigned integer.
pub uninterp spec fn ffromint32(v: int) -> u32;

/// The double-precision bit pattern nearest to an unsigned integer.
pub uninterp spec fn ffromint64(v: int) -> u64;

/// The double-precision bit pattern of a widened single-precision one.
pub uninterp spec fn fwiden(a: u32) -> u64;

/// The single-precision bit pattern nearest to a double-precision one.
pub uninterp spec fn fnarrow(a: u64) -> u32;

/// The double-precision quotient of two bit patterns.
pub uninterp spec fn fdiv64(a: u64, b: u64) -> u64;

/// Relies on rustc_apfloat's `Single` addition (round to nearest, ties to
/// even): the result depends on the two bit patterns alone.
#[verifier::external_body]
pub(crate) fn add32(a: u32, b: u32) -> (r: u32)
    ensures
        r == fadd32(a, b),
{
    (Single::from_bits(a as u128) + Single::from_bits(b as u128)).value.to_bits() as u32
}

/// Relies on rustc_apfloat's `Single` subtraction (round to nearest, ties
/// to even): the result depends on the two bit patterns alone.
#[verifier::external_body]
pub(crate) fn sub32(a: u32, b: u32) -> (r: u32)
    ensures
        r == fsub32(a, b),
{
    (Single::from_bits(a as u128) - Single::from_bits(b as u128)).value.to_bits() as u32
}

/// Relies on rustc_apfloat's `Single` multiplication (round to nearest,
/// ties to even): the result depends on the two bit patterns alone.
#[verifier::external_body]
pub(crate) fn mul32(a: u32, b: u32) -> (r: u32)
    ensures
        r == fmul32(a, b),
{
    (Single::from_bits(a as u128) * Single::from_bits(b as u128)).value.to_bits() as u32
}

/// Relies on rustc_apfloat's `Single` division (round to nearest, ties to
/// even): the result depends on the two bit patterns alone.
#[verifier::external_body]
pub(crate) fn div32(a: u32, b: u32) -> (r: u32)
    ensures
        r == fdiv32(a, b),
{
    (Single::from_bits(a as u128) / Single::from_bits(b as u128)).value.to_bits() as u32
}

/// Relies on rustc_apfloat's `PartialOrd` for `Single`, the IEEE-754
/// comparison (false whenever either operand is NaN).
#[verifier::external_body]
pub(crate) fn lt32(a: u32, b: u32) -> (r: bool)
    ensures
        r == flt32(a, b),
{
    Single::from_bits(a as u128) < Single::from_bits(b as u128)
}

/// Relies on rustc_apfloat's `Single::to_u128` (round toward zero,
/// saturating at the bounds, zero for NaN), which is the behaviour of an
/// `as` cast from single precision to `u32`.
#[verifier::external_body]
pub(crate) fn trunc32(a: u32) -> (r: u32)
    ensures
        r == ftrunc32(a),
{
    Single::from_bits(a as u128).to_u128(32).value as u32
}

/// Relies on rustc_apfloat's `Single::from_u128` (round to nearest, ties
/// to even), the behaviour of an `as` cast from an unsigned integer.
#[verifier::external_body]
pub(crate) fn from_u64_32(v: u64) -> (r: u32)
    ensures
        r == ffromint32(v as int),
{
    Single::from_u128(v as u128).value.to_bits() as u32
}

/// Relies on rustc_apfloat's `Double::from_u128` (round to nearest, ties
/// to even), the behaviour of an `as` cast from an unsigned integer.
#[verifier::external_body]
pub(crate) fn from_u64_64(v: u64) -> (r: u64)
    ensures
        r == ffromint64(v as int),
{
    Double::from_u128(v as u128).value.to_bits() as u64
}

/// Relies on rustc_apfloat's `FloatConvert` from `Single` to `Double`,
/// the exact widening conversion.
#[verifier::external_body]
pub(crate) fn widen32(a: u32) -> (r: u64)
    ensures
        r == fwiden(a),
{
    let mut loses_info = false;
    let d: rustc_apfloat::StatusAnd<Double> = Single::from_bits(a as u128).convert(&mut loses_info);
    d.value.to_bits() as u64
}

/// Relies on rustc_apfloat's `FloatConvert` from `Double` to `Single`
/// (round to nearest, ties to even), the behaviour of a narrowing `as` cast.
#[verifier::external_body]
pub(crate) fn narrow64(a: u64) -> (r: u32)
    ensures
        r == fnarrow(a),
{
    let mut loses_info = false;
    let s: rustc_apfloat::StatusAnd<Single> = Double::from_bits(a as u128).convert(&mut loses_info);
    s.value.to_bits() as u32
}

/// Relies on rustc_apfloat's `Double` division (round to nearest, ties to
/// even): the result depends on the two bit patterns alone.
#[verifier::external_body]
pub(crate) fn div64(a: u64, b: u64) -> (r: u64)
    ensures
        r == fdiv64(a, b),
{
    (Double::from_bits(a as u128) / Double::from_bits(b as u128)).value.to_bits() as u64
}

} // verus!
