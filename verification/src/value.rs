//! Untyped 64-bit values: every slot of the interpreter's value stack holds
//! one `UntypedValue`, a bag of 64 bits; the typed interpretation is chosen
//! by the opcode that consumes it, never by the value itself.

use vstd::prelude::*;

verus! {

/// The 16-bit two's-complement bit pattern of `x`, as a mathematical value.
pub open spec fn spec_i16_bits(x: i16) -> u16 {
    if x >= 0 {
        x as u16
    } else {
        (x + 0x1_0000) as u16
    }
}

/// The signed value whose 16-bit two's-complement pattern is `b`.
pub open spec fn spec_i16_of_bits(b: u16) -> i16 {
    if b < 0x8000 {
        b as i16
    } else {
        (b - 0x1_0000) as i16
    }
}

/// Reinterprets a signed 16-bit value as its bit pattern.
pub fn i16_bits(x: i16) -> (r: u16)
    ensures
        r == spec_i16_bits(x),
{
    if x >= 0 {
        x as u16
    } else {
        (x as i32 + 0x1_0000i32) as u16
    }
}

/// Reinterprets a 16-bit pattern as a signed value.
pub fn i16_of_bits(b: u16) -> (r: i16)
    ensures
        r == spec_i16_of_bits(b),
{
    if b < 0x8000 {
        b as i16
    } else {
        (b as i32 - 0x1_0000i32) as i16
    }
}

/// The 32-bit two's-complement bit pattern of `x`, as a mathematical value.
pub open spec fn spec_i32_bits(x: i32) -> u32 {
    if x >= 0 {
        x as u32
    } else {
        (x + 0x1_0000_0000) as u32
    }
}

/// The 64-bit two's-complement bit pattern of `x`, as a mathematical value.
pub open spec fn spec_i64_bits(x: i64) -> u64 {
    if x >= 0 {
        x as u64
    } else {
        (x + 0x1_0000_0000_0000_0000) as u64
    }
}

/// The signed value whose 32-bit two's-complement pattern is `b`.
pub open spec fn spec_i32_of_bits(b: u32) -> i32 {
    if b < 0x8000_0000 {
        b as i32
    } else {
        (b - 0x1_0000_0000) as i32
    }
}

/// The signed value whose 64-bit two's-complement pattern is `b`.
pub open spec fn spec_i64_of_bits(b: u64) -> i64 {
    if b < 0x8000_0000_0000_0000 {
        b as i64
    } else {
        (b - 0x1_0000_0000_0000_0000) as i64
    }
}

/// Reinterprets a signed 32-bit value as its bit pattern.
pub fn i32_bits(x: i32) -> (r: u32)
    ensures
        r == spec_i32_bits(x),
{
    if x >= 0 {
        x as u32
    } else {
        (x as i64 + 0x1_0000_0000i64) as u32
    }
}

/// Reinterprets a 32-bit pattern as a signed value.
pub fn i32_of_bits(b: u32) -> (r: i32)
    ensures
        r == spec_i32_of_bits(b),
{
    if b < 0x8000_0000 {
        b as i32
    } else {
        (b as i64 - 0x1_0000_0000i64) as i32
    }
}

/// Reinterprets a signed 64-bit value as its bit pattern.
pub fn i64_bits(x: i64) -> (r: u64)
    ensures
        r == spec_i64_bits(x),
{
    if x >= 0 {
        x as u64
    } else {
        0xFFFF_FFFF_FFFF_FFFFu64 - ((-(x + 1)) as u64)
    }
}

/// Reinterprets a 64-bit pattern as a signed value.
pub fn i64_of_bits(b: u64) -> (r: i64)
    ensures
        r == spec_i64_of_bits(b),
{
    if b < 0x8000_0000_0000_0000 {
        b as i64
    } else {
        -((0xFFFF_FFFF_FFFF_FFFFu64 - b) as i64) - 1
    }
}

/// The two 32-bit reinterpretations invert each other.
pub proof fn lemma_i32_bits_roundtrip(x: i32)
    ensures
        spec_i32_of_bits(spec_i32_bits(x)) == x,
{
}


/// Whether a mathematical integer is representable as an `i32`.
pub open spec fn fits_i32(x: int) -> bool {
    -0x8000_0000 <= x <= 0x7FFF_FFFF
}

/// A raw 64-bit value. Conversions from the narrower integer types keep the
/// bit pattern: signed 32-bit values are zero-extended from their 32-bit
/// two's-complement representation, and signed 64-bit values are
/// reinterpreted.
#[derive(Debug, Copy, Clone, PartialEq, Eq, Structural)]
pub struct UntypedValue {
    pub bits: u64,
}

impl UntypedValue {
    /// Builds a value from a raw bit pattern.
    pub fn from_bits(bits: u64) -> (r: Self)
        ensures
            r.bits == bits,
    {
        Self { bits }
    }

    /// Returns the raw bit pattern.
    pub fn to_bits(self) -> (r: u64)
        ensures
            r == self.bits,
    {
        self.bits
    }

    /// The 32-bit two's-complement pattern of `value`, zero-extended.
    pub fn from_i32(value: i32) -> (r: Self)
        ensures
            r.bits == spec_i32_bits(value) as u64,
    {
        Self { bits: i32_bits(value) as u64 }
    }

    /// A 32-bit unsigned value, zero-extended.
    pub fn from_u32(value: u32) -> (r: Self)
        ensures
            r.bits == value as u64,
    {
        Self { bits: value as u64 }
    }

    /// The 64-bit two's-complement pattern of `value`.
    pub fn from_i64(value: i64) -> (r: Self)
        ensures
            r.bits == spec_i64_bits(value),
    {
        Self { bits: i64_bits(value) }
    }

    /// A 64-bit unsigned value, kept as is.
    pub fn from_u64(value: u64) -> (r: Self)
        ensures
            r.bits == value,
    {
        Self { bits: value }
    }
}

} // verus!
