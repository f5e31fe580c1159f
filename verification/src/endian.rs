//! Big-endian byte-level encodings of the fixed-width operand integers, and
//! the calls into the `byteorder` crate that read and write them inside a
//! byte buffer.

use vstd::prelude::*;

use byteorder::{BigEndian, ByteOrder};

verus! {

/// The two big-endian bytes of `x`.
pub open spec fn u16_be_bytes(x: u16) -> Seq<u8> {
    seq![((x >> 8) & 0xFF) as u8, (x & 0xFF) as u8]
}

/// The four big-endian bytes of `x`.
pub open spec fn u32_be_bytes(x: u32) -> Seq<u8> {
    seq![
        ((x >> 24) & 0xFF) as u8,
        ((x >> 16) & 0xFF) as u8,
        ((x >> 8) & 0xFF) as u8,
        (x & 0xFF) as u8,
    ]
}

/// The eight big-endian bytes of `x`.
pub open spec fn u64_be_bytes(x: u64) -> Seq<u8> {
    seq![
        ((x >> 56) & 0xFF) as u8,
        ((x >> 48) & 0xFF) as u8,
        ((x >> 40) & 0xFF) as u8,
        ((x >> 32) & 0xFF) as u8,
        ((x >> 24) & 0xFF) as u8,
        ((x >> 16) & 0xFF) as u8,
        ((x >> 8) & 0xFF) as u8,
        (x & 0xFF) as u8,
    ]
}

/// The value whose big-endian bytes are `s` (two bytes).
pub open spec fn u16_of_be(s: Seq<u8>) -> u16
    recommends
        s.len() == 2,
{
    (s[0] as u16) << 8 | (s[1] as u16)
}

/// The value whose big-endian bytes are `s` (four bytes).
pub open spec fn u32_of_be(s: Seq<u8>) -> u32
    recommends
        s.len() == 4,
{
    (s[0] as u32) << 24 | (s[1] as u32) << 16 | (s[2] as u32) << 8 | (s[3] as u32)
}

/// The value whose big-endian bytes are `s` (eight bytes).
pub open spec fn u64_of_be(s: Seq<u8>) -> u64
    recommends
        s.len() == 8,
{
    (s[0] as u64) << 56 | (s[1] as u64) << 48 | (s[2] as u64) << 40 | (s[3] as u64) << 32 | (
    s[4] as u64) << 24 | (s[5] as u64) << 16 | (s[6] as u64) << 8 | (s[7] as u64)
}


/// Reading back the four big-endian bytes of a value gives the value.
pub broadcast proof fn lemma_u32_be_roundtrip(x: u32)
    ensures
        u32_of_be(#[trigger] u32_be_bytes(x)) == x,
{
    let s = u32_be_bytes(x);
    assert(s[0] == ((x >> 24) & 0xFF) as u8);
    assert(s[1] == ((x >> 16) & 0xFF) as u8);
    assert(s[2] == ((x >> 8) & 0xFF) as u8);
    assert(s[3] == (x & 0xFF) as u8);
    assert(((((x >> 24) & 0xFF) as u8) as u32) << 24 | ((((x >> 16) & 0xFF) as u8) as u32) << 16 | (
    (((x >> 8) & 0xFF) as u8) as u32) << 8 | (((x & 0xFF) as u8) as u32) == x) by (bit_vector);
}

/// Reading back the eight big-endian bytes of a value gives the value.
pub broadcast proof fn lemma_u64_be_roundtrip(x: u64)
    ensures
        u64_of_be(#[trigger] u64_be_bytes(x)) == x,
{
    let s = u64_be_bytes(x);
    assert(s[0] == ((x >> 56) & 0xFF) as u8);
    assert(s[1] == ((x >> 48) & 0xFF) as u8);
    assert(s[2] == ((x >> 40) & 0xFF) as u8);
    assert(s[3] == ((x >> 32) & 0xFF) as u8);
    assert(s[4] == ((x >> 24) & 0xFF) as u8);
    assert(s[5] == ((x >> 16) & 0xFF) as u8);
    assert(s[6] == ((x >> 8) & 0xFF) as u8);
    assert(s[7] == (x & 0xFF) as u8);
    assert(((((x >> 56) & 0xFF) as u8) as u64) << 56 | ((((x >> 48) & 0xFF) as u8) as u64) << 48 | (
    (((x >> 40) & 0xFF) as u8) as u64) << 40 | ((((x >> 32) & 0xFF) as u8) as u64) << 32 | ((((x
        >> 24) & 0xFF) as u8) as u64) << 24 | ((((x >> 16) & 0xFF) as u8) as u64) << 16 | ((((x
        >> 8) & 0xFF) as u8) as u64) << 8 | (((x & 0xFF) as u8) as u64) == x) by (bit_vector);
}


/// Relies on byteorder's `BigEndian::write_u16`: stores the two big-endian
/// bytes of `x` at the start of the given slice.
#[verifier::external_body]
pub(crate) fn write_u16_be_into(v: &mut Vec<u8>, pos: usize, x: u16)
    requires
        pos + 2 <= old(v)@.len(),
    ensures
        final(v)@.len() == old(v)@.len(),
        final(v)@.subrange(pos as int, pos + 2) == u16_be_bytes(x),
        forall|i: int|
            0 <= i < old(v)@.len() && !(pos <= i < pos + 2) ==> final(v)@[i] == old(v)@[i],
{
    BigEndian::write_u16(&mut v[pos..pos + 2], x);
}

/// Relies on byteorder's `BigEndian::write_u32`: stores the four big-endian
/// bytes of `x` at the start of the given slice.
#[verifier::external_body]
pub(crate) fn write_u32_be_into(v: &mut Vec<u8>, pos: usize, x: u32)
    requires
        pos + 4 <= old(v)@.len(),
    ensures
        final(v)@.len() == old(v)@.len(),
        final(v)@.subrange(pos as int, pos + 4) == u32_be_bytes(x),
        forall|i: int|
            0 <= i < old(v)@.len() && !(pos <= i < pos + 4) ==> final(v)@[i] == old(v)@[i],
{
    BigEndian::write_u32(&mut v[pos..pos + 4], x);
}

/// Relies on byteorder's `BigEndian::write_u64`: stores the eight big-endian
/// bytes of `x` at the start of the given slice.
#[verifier::external_body]
pub(crate) fn write_u64_be_into(v: &mut Vec<u8>, pos: usize, x: u64)
    requires
        pos + 8 <= old(v)@.len(),
    ensures
        final(v)@.len() == old(v)@.len(),
        final(v)@.subrange(pos as int, pos + 8) == u64_be_bytes(x),
        forall|i: int|
            0 <= i < old(v)@.len() && !(pos <= i < pos + 8) ==> final(v)@[i] == old(v)@[i],
{
    BigEndian::write_u64(&mut v[pos..pos + 8], x);
}

/// Relies on byteorder's `BigEndian::read_u16`: reads a big-endian 16-bit
/// value from the start of the given slice.
#[verifier::external_body]
pub(crate) fn read_u16_be_at(v: &Vec<u8>, pos: usize) -> (r: u16)
    requires
        pos + 2 <= v@.len(),
    ensures
        r == u16_of_be(v@.subrange(pos as int, pos + 2)),
{
    BigEndian::read_u16(&v[pos..pos + 2])
}

/// Relies on byteorder's `BigEndian::read_u32`: reads a big-endian 32-bit
/// value from the start of the given slice.
#[verifier::external_body]
pub(crate) fn read_u32_be_at(v: &Vec<u8>, pos: usize) -> (r: u32)
    requires
        pos + 4 <= v@.len(),
    ensures
        r == u32_of_be(v@.subrange(pos as int, pos + 4)),
{
    BigEndian::read_u32(&v[pos..pos + 4])
}

/// Relies on byteorder's `BigEndian::read_u64`: reads a big-endian 64-bit
/// value from the start of the given slice.
#[verifier::external_body]
pub(crate) fn read_u64_be_at(v: &Vec<u8>, pos: usize) -> (r: u64)
    requires
        pos + 8 <= v@.len(),
    ensures
        r == u64_of_be(v@.subrange(pos as int, pos + 8)),
{
    BigEndian::read_u64(&v[pos..pos + 8])
}

} // verus!
