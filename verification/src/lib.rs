//! Byte-level bridge to pairing-friendly elliptic-curve arithmetic.
//!
//! Each entry point takes raw byte buffers, decodes them with the
//! fixed-width uncompressed codec of the curve family, hands the decoded
//! values to the arithmetic engine, and returns the canonical encoding of
//! the result.  Decoding performs no on-curve or subgroup check: a caller
//! who needs validated points must validate before calling.

use vstd::prelude::*;

pub mod registry;
pub mod scalar;
pub mod bls12_381;
pub mod bw6_761;
pub mod ed_on_bls12_377;
pub mod ed_on_bls12_381;

verus! {

/// Why a call returned no output buffer.
#[derive(Clone, Copy, PartialEq, Eq, Structural, Debug)]
pub enum Error {
    /// An input buffer does not have the fixed width that the curve
    /// family, group and representation dictate.
    BadLength,
    /// A fixed-width coordinate sub-range does not parse as a field
    /// element (it encodes a value at or above the modulus, or carries
    /// an invalid flag combination).
    BadFieldElement,
    /// Two paired input sequences differ in length.
    LengthMismatch,
    /// The arithmetic engine reported failure on decoded inputs.
    Engine,
}

} // verus!
