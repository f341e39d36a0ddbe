//! IEEE-754 binary64 arithmetic over bit patterns.
//!
//! The verifier has no floating-point theory, so a double is carried as its
//! 64-bit pattern and each arithmetic operation is named by an uninterpreted
//! spec function. The executable side computes the operations in software
//! through `rustc_apfloat`, whose results are a deterministic function of the
//! operands' bit patterns alone.

use vstd::prelude::*;
use rustc_apfloat::Float;

verus! {

/// The bit pattern of the IEEE-754 binary64 sum `a + b`, rounded to nearest
/// even, where `a` and `b` stand for the doubles with those bit patterns.
pub uninterp spec fn add_bits(a: u64, b: u64) -> u64;

/// The bit pattern of the IEEE-754 binary64 product `a * b`, rounded to
/// nearest even, where `a` and `b` stand for the doubles with those bit
/// patterns.
pub uninterp spec fn mul_bits(a: u64, b: u64) -> u64;

/// Relies on `rustc_apfloat::ieee::Double`'s `Add` impl: IEEE-754 addition
/// with round-to-nearest-even, computed in software as a deterministic
/// function of the two operands' bit patterns.
#[verifier::external_body]
pub(crate) fn add_double(a: u64, b: u64) -> (r: u64)
    ensures
        r == add_bits(a, b),
{
    let x = rustc_apfloat::ieee::Double::from_bits(a as u128);
    let y = rustc_apfloat::ieee::Double::from_bits(b as u128);
    (x + y).value.to_bits() as u64
}

/// Relies on `rustc_apfloat::ieee::Double`'s `Mul` impl: IEEE-754
/// multiplication with round-to-nearest-even, computed in software as a
/// deterministic function of the two operands' bit patterns.
#[verifier::external_body]
pub(crate) fn mul_double(a: u64, b: u64) -> (r: u64)
    ensures
        r == mul_bits(a, b),
{
    let x = rustc_apfloat::ieee::Double::from_bits(a as u128);
    let y = rustc_apfloat::ieee::Double::from_bits(b as u128);
    (x * y).value.to_bits() as u64
}

} // verus!
