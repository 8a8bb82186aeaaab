//! Fixed-width little-endian integer codec: the mathematical layout of 16-
//! and 32-bit fields on the wire, the executable decoders, and the proofs
//! that decoding inverts encoding.

use vstd::prelude::*;

verus! {

/// The two little-endian bytes of a 16-bit value.
pub open spec fn le16_bytes(v: u16) -> Seq<u8> {
    seq![(v % 0x100) as u8, (v / 0x100) as u8]
}

/// The four little-endian bytes of a 32-bit value.
pub open spec fn le32_bytes(v: u32) -> Seq<u8> {
    seq![
        (v % 0x100) as u8,
        ((v / 0x100) % 0x100) as u8,
        ((v / 0x10000) % 0x100) as u8,
        (v / 0x1000000) as u8,
    ]
}

/// The 16-bit value held little-endian in the two bytes starting at `i`.
pub open spec fn le16_at(s: Seq<u8>, i: int) -> u16
    recommends
        0 <= i,
        i + 2 <= s.len(),
{
    (s[i] + s[i + 1] * 0x100) as u16
}

/// The 32-bit value held little-endian in the four bytes starting at `i`.
pub open spec fn le32_at(s: Seq<u8>, i: int) -> u32
    recommends
        0 <= i,
        i + 4 <= s.len(),
{
    (s[i] + s[i + 1] * 0x100 + s[i + 2] * 0x10000 + s[i + 3] * 0x1000000) as u32
}

/// Decoding the two little-endian bytes of a value gives the value back.
pub proof fn lemma_le16_round_trip(v: u16)
    ensures
        le16_at(le16_bytes(v), 0) == v,
{
    assert(v == v % 0x100 + (v / 0x100) * 0x100) by (nonlinear_arith);
}

/// Decoding the four little-endian bytes of a value gives the value back.
pub proof fn lemma_le32_round_trip(v: u32)
    ensures
        le32_at(le32_bytes(v), 0) == v,
{
    assert(v == v % 0x100 + ((v / 0x100) % 0x100) * 0x100 + ((v / 0x10000) % 0x100) * 0x10000
        + (v / 0x1000000) * 0x1000000) by (nonlinear_arith);
}

/// Convert a two-byte slice to a u16 - little-endian.
pub fn parse_u16(data: &[u8]) -> (r: u16)
    requires
        data@.len() == 2,
    ensures
        r == le16_at(data@, 0),
{
    let low = data[0] as u16;
    let high = data[1] as u16;
    low + high * 0x100
}

/// Convert a four-byte slice to a u32 - little-endian.
pub fn parse_u32(data: &[u8]) -> (r: u32)
    requires
        data@.len() == 4,
    ensures
        r == le32_at(data@, 0),
{
    let b0 = data[0] as u32;
    let b1 = data[1] as u32;
    let b2 = data[2] as u32;
    let b3 = data[3] as u32;
    b0 + b1 * 0x100 + b2 * 0x10000 + b3 * 0x1000000
}

} // verus!
