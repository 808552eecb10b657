//! Decomposition of the bit pattern of a single-precision IEEE 754 value into
//! its sign, biased exponent and fraction fields, decoding of those fields into
//! exact integer forms of their meaning, and recomposition of the decoded parts.
use vstd::prelude::*;

pub mod decode;
pub mod extract;
pub mod recompose;

verus! {

/// Offset of the biased exponent of a single-precision value.
pub const BIAS: i32 = 127;

/// Number of bits in the fraction field.
pub const FRACTION_BITS: u32 = 23;

} // verus!
