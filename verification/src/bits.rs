//! Small bit-level facts shared by the register and codec modules.

use vstd::prelude::*;

verus! {

/// Bounds of the narrow fields that are cut out of a 32-bit register value.
pub proof fn lemma_field_bounds(x: u32)
    by (bit_vector)
    ensures
        x & 0xF < 16,
        x & 3 < 4,
        (x >> 4) & 3 < 4,
        (x >> 12) & 3 < 4,
        (x >> 16) & 0x7F < 128,
        (x >> 16) & 0xFFFF < 0x10000,
        x & 0x3FF < 1024,
{
}

/// A word packed from four bytes in little-endian order hands each byte back
/// from its own lane.
pub proof fn lemma_word_pack(b0: u8, b1: u8, b2: u8, b3: u8)
    by (bit_vector)
    ensures
        ({
            let w = (b0 as u32) | ((b1 as u32) << 8) | ((b2 as u32) << 16) | ((b3 as u32) << 24);
            &&& (w & 0xFF) as u8 == b0
            &&& ((w >> 8) & 0xFF) as u8 == b1
            &&& ((w >> 16) & 0xFF) as u8 == b2
            &&& ((w >> 24) & 0xFF) as u8 == b3
        }),
{
}

/// Setting a bit in an in-use mask makes exactly that bit test as set, and
/// the empty mask has no bit set.
pub proof fn lemma_mask_bit(m: u8, i: u8)
    by (bit_vector)
    requires
        i < 8,
    ensures
        (m | (1u8 << i)) & (1u8 << i) != 0,
        0u8 & (1u8 << i) == 0,
{
}

/// Masking the recorded receive count out of a descriptor's upper half
/// gives the same bits whether or not the half was narrowed to 16 bits
/// first.
pub proof fn lemma_rx_count_mask(w: u32)
    by (bit_vector)
    ensures
        ((w >> 16) & 0xFFFF) & 0x3FF == (w >> 16) & 0x3FF,
        (w >> 16) & 0x3FF < 1024,
{
}

} // verus!
