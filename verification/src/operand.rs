//! Numeric operands, modeled by their IEEE 754 bit patterns.
//!
//! The calculator works on 64-bit floating-point operands. Inside the
//! verified library an operand is carried as its raw 64-bit IEEE 754 bit
//! pattern; the only property the calculation rules ever inspect is whether
//! the operand is zero. Under IEEE 754 equality a double equals zero
//! exactly when every bit except the sign bit is clear, so there are
//! precisely two zero bit patterns — positive zero (all bits clear) and
//! negative zero (only the sign bit set) — and the test for them is pure
//! integer logic, verified here.

use vstd::prelude::*;

verus! {

/// The sign bit of a 64-bit IEEE 754 value: the bit pattern of negative
/// zero, whose every other bit is clear.
pub const SIGN_BIT: u64 = 0x8000_0000_0000_0000;

/// A 64-bit floating-point operand, held as its IEEE 754 bit pattern.
#[derive(Clone, Copy, Debug, PartialEq, Eq, Structural)]
pub struct Operand {
    /// The IEEE 754 bit pattern of the operand.
    pub bits: u64,
}

/// Whether a bit pattern denotes zero: it is positive zero or negative
/// zero, the two patterns in which exponent and significand are all zero.
pub open spec fn is_zero_bits(bits: u64) -> bool {
    bits == 0 || bits == SIGN_BIT
}

impl Operand {
    /// Builds an operand from a raw IEEE 754 bit pattern.
    pub fn from_bits(bits: u64) -> (r: Operand)
        ensures
            r.bits == bits,
    {
        Operand { bits }
    }

    /// Whether the operand denotes zero, positive or negative.
    pub open spec fn spec_is_zero(&self) -> bool {
        is_zero_bits(self.bits)
    }

    /// Tests whether the operand denotes zero. Both signed zeros qualify:
    /// masking the sign bit away leaves zero exactly on the two zero
    /// patterns.
    pub fn is_zero(&self) -> (r: bool)
        ensures
            r == self.spec_is_zero(),
    {
        proof {
            lemma_zero_mask(self.bits);
        }
        self.bits & 0x7fff_ffff_ffff_ffff == 0
    }
}

/// Clearing the sign bit of a pattern leaves zero exactly when the pattern
/// is one of the two IEEE 754 zeros. This is how IEEE 754 equality with
/// zero is decided without looking at the sign.
pub proof fn lemma_zero_mask(bits: u64)
    ensures
        (bits & 0x7fff_ffff_ffff_ffff == 0) <==> is_zero_bits(bits),
{
    assert((bits & 0x7fff_ffff_ffff_ffff == 0) <==> (bits == 0
        || bits == 0x8000_0000_0000_0000)) by (bit_vector);
}

} // verus!
