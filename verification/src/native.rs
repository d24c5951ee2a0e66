//! The native types that the library itself brings: the double, and the
//! wrappers that choose among several dynamic shapes for one native type.

use vstd::prelude::*;

verus! {

/// A native double (a 64-bit IEEE 754 number), held as its bit pattern.
/// It converts to and from a dynamic number.
///
/// Two doubles are equal when their bit patterns are: a NaN equals
/// itself, and the two zeros differ.
#[derive(Debug, Clone, Copy, PartialEq, Eq, Hash, Structural)]
pub struct F64 {
    pub bits: u64,
}

impl F64 {
    /// The double with the given bit pattern.
    pub fn from_bits(bits: u64) -> (x: F64)
        ensures
            x.bits == bits,
    {
        F64 { bits }
    }

    /// The bit pattern of the double.
    pub fn to_bits(self) -> (bits: u64)
        ensures
            bits == self.bits,
    {
        self.bits
    }
}

/// Wrapper for converting between a double and a dynamic date: the
/// double is the date's time value in milliseconds.
#[derive(Debug, Clone, Copy, PartialEq, Eq, Structural)]
pub struct Date(pub F64);

/// Wrapper for converting between bytes and a dynamic `ArrayBuffer`.
#[derive(Debug, Clone, PartialEq, Eq)]
pub struct ArrayBuffer(pub Vec<u8>);

/// Wrapper for converting between bytes and a dynamic `Buffer`.
#[derive(Debug, Clone, PartialEq, Eq)]
pub struct Buffer(pub Vec<u8>);

} // verus!
