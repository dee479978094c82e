//! Splitting and composing the big-endian 16-bit fields of the wire format.

use vstd::prelude::*;

verus! {

/// The high byte of a 16-bit value.
pub open spec fn spec_hi(x: u16) -> u8 {
    (x >> 8) as u8
}

/// The low byte of a 16-bit value.
pub open spec fn spec_lo(x: u16) -> u8 {
    (x & 0xFF) as u8
}

/// The 16-bit value whose big-endian bytes are `h` then `l`.
pub open spec fn spec_be16(h: u8, l: u8) -> u16 {
    ((h as u16) << 8) | (l as u16)
}

/// The high byte of a 16-bit value.
pub fn hi(x: u16) -> (r: u8)
    ensures
        r == spec_hi(x),
{
    proof {
        assert((x >> 8) < 256) by (bit_vector);
    }
    (x >> 8) as u8
}

/// The low byte of a 16-bit value.
pub fn lo(x: u16) -> (r: u8)
    ensures
        r == spec_lo(x),
{
    proof {
        assert((x & 0xFF) < 256) by (bit_vector);
    }
    (x & 0xFF) as u8
}

/// The 16-bit value whose big-endian bytes are `h` then `l`.
pub fn be16(h: u8, l: u8) -> (r: u16)
    ensures
        r == spec_be16(h, l),
{
    ((h as u16) << 8) | (l as u16)
}

/// Splitting a 16-bit value into its bytes and recomposing them big-endian
/// gives the value back.
pub proof fn lemma_be16_of_split(x: u16)
    by (bit_vector)
    ensures
        spec_be16(spec_hi(x), spec_lo(x)) == x,
{
}

/// Distinct byte pairs compose to distinct 16-bit values.
pub proof fn lemma_be16_injective(h1: u8, l1: u8, h2: u8, l2: u8)
    by (bit_vector)
    requires
        spec_be16(h1, l1) == spec_be16(h2, l2),
    ensures
        h1 == h2 && l1 == l2,
{
}

/// Flipping one bit of a byte always changes the byte.
pub proof fn lemma_bit_flip_changes_byte(b: u8, bit: u8)
    by (bit_vector)
    requires
        bit < 8,
    ensures
        b ^ (1u8 << bit) != b,
{
}

/// Composing two bytes big-endian and splitting the result gives the bytes
/// back.
pub proof fn lemma_split_of_be16(h: u8, l: u8)
    by (bit_vector)
    ensures
        spec_hi(spec_be16(h, l)) == h,
        spec_lo(spec_be16(h, l)) == l,
{
}

} // verus!
