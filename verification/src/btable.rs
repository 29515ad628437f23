//! The buffer descriptor table and the receive-length code.
//!
//! The descriptor table lives in the first words of the packet memory, one
//! word pair per channel: the transmit half holds the address and byte count
//! of pending data, the receive half holds the address and the encoded
//! maximum receive length. The hardware does not store that maximum as a
//! plain byte count: lengths up to 60 are encoded in two-byte blocks, longer
//! lengths in 32-byte blocks with a flag, and [`decode_len_bits`] states the
//! rule by which the peripheral reads the code back.

use vstd::prelude::*;
use crate::hw::{PacketMemory, EP_COUNT};
use crate::bits::lemma_field_bounds;

verus! {

pub open spec fn spec_align_len_up(len: int) -> int {
    ((len + 3) / 4) * 4
}

/// The number of bytes the peripheral will reserve for a receive channel
/// with maximum packet size `len`.
pub open spec fn spec_receive_alloc_len(len: int) -> int {
    if len <= 60 {
        spec_align_len_up(len)
    } else {
        ((len + 31) / 32) * 32
    }
}

/// The receive-length code for maximum packet size `len`: lengths up to 60
/// bytes are counted in two-byte blocks placed at bit 10; longer lengths in
/// 32-byte blocks, one less than the count at bit 10, with bit 15 set.
pub open spec fn spec_receive_len_bits(len: int) -> int {
    if len <= 60 {
        (spec_align_len_up(len) / 2) * 1024
    } else {
        (((len + 31) / 32) - 1) * 1024 + 0x8000
    }
}

/// The length the peripheral reads back out of a receive-length code: the
/// block count at bit 10, scaled by two or, when bit 15 is set, incremented
/// and scaled by 32.
pub open spec fn decode_len_bits(bits: int) -> int {
    if bits < 0x8000 {
        (bits / 1024) * 2
    } else {
        ((bits - 0x8000) / 1024 + 1) * 32
    }
}

/// Rounds a byte count up to the packet memory's access granularity.
pub fn align_len_up(len: u16) -> (r: u16)
    requires
        len <= 2048,
    ensures
        r == spec_align_len_up(len as int),
{
    ((len + 3) / 4) * 4
}

/// Computes the receive buffer size and the receive-length code for a
/// maximum packet size.
///
/// Returns `(actual_len, len_bits)`: `actual_len` is the byte count the code
/// stands for (the requested length rounded up to the encoding's block
/// size), `len_bits` the code, already placed for the upper half of the
/// descriptor word. Lengths outside `2..=1024` have no encoding; the
/// precondition keeps them out.
pub fn calc_receive_len_bits(len: u16) -> (r: (u16, u16))
    requires
        2 <= len <= 1024,
    ensures
        r.0 == spec_receive_alloc_len(len as int),
        r.1 == spec_receive_len_bits(len as int),
{
    if len <= 60 {
        let a = align_len_up(len);
        (a, (a / 2) * 1024)
    } else {
        let blocks = (len + 31) / 32;
        assert(2 <= blocks <= 32 && 32 * blocks <= 1056) by (nonlinear_arith)
            requires
                61 <= len <= 1024,
                blocks == (len + 31) / 32,
        ;
        (blocks * 32, (blocks - 1) * 1024 + 0x8000)
    }
}

/// The receive-length code decodes to the size that was reserved: at least
/// the requested length, at most 31 bytes more, a multiple of the access
/// granularity, and never more than 1024. Re-encoding the decoded length
/// gives the same code, so the encoding is idempotent under the
/// peripheral's decode rule.
pub proof fn lemma_receive_len_code(len: int)
    requires
        2 <= len <= 1024,
    ensures
        decode_len_bits(spec_receive_len_bits(len)) == spec_receive_alloc_len(len),
        len <= spec_receive_alloc_len(len) <= len + 31,
        spec_receive_alloc_len(len) % 4 == 0,
        spec_receive_alloc_len(len) <= 1024,
        spec_receive_len_bits(spec_receive_alloc_len(len)) == spec_receive_len_bits(len),
        spec_receive_alloc_len(spec_receive_alloc_len(len)) == spec_receive_alloc_len(len),
        0 <= spec_receive_len_bits(len) < 0x10000,
{
    if len <= 60 {
        let a = spec_align_len_up(len);
        assert(len <= a <= len + 3 && a % 4 == 0 && a <= 60 && a % 2 == 0) by (nonlinear_arith)
            requires
                2 <= len <= 60,
                a == ((len + 3) / 4) * 4,
        ;
        assert(((a / 2) * 1024) / 1024 == a / 2 && (a / 2) * 2 == a && (a / 2) * 1024 < 0x8000
            && 0 <= (a / 2) * 1024) by (nonlinear_arith)
            requires
                4 <= a <= 60,
                a % 2 == 0,
                a % 4 == 0,
        ;
        assert(spec_align_len_up(a) == a) by (nonlinear_arith)
            requires
                4 <= a <= 60,
                a % 4 == 0,
        ;
    } else {
        let b = (len + 31) / 32;
        assert(2 <= b <= 32 && len <= 32 * b <= len + 31 && (32 * b) % 4 == 0 && 32 * b <= 1024)
            by (nonlinear_arith)
            requires
                61 <= len <= 1024,
                b == (len + 31) / 32,
        ;
        let bits = (b - 1) * 1024 + 0x8000;
        assert((bits - 0x8000) / 1024 == b - 1 && 0x8000 <= bits < 0x10000) by (nonlinear_arith)
            requires
                2 <= b <= 32,
                bits == (b - 1) * 1024 + 0x8000,
        ;
        assert((32 * b + 31) / 32 == b) by (nonlinear_arith)
            requires
                2 <= b <= 32,
        ;
        assert(spec_receive_len_bits(32 * b) == bits);
        assert(spec_receive_alloc_len(32 * b) == 32 * b);
    }
}

/// Marks the transmit half of a channel's descriptor as claimed; on this
/// platform the transmit descriptor is written only when data is actually
/// queued, so claiming writes nothing.
pub fn write_in(_index: usize, _addr: u16) {
}

/// Writes the transmit half of channel `index`'s buffer descriptor: the
/// region address in the lower half of the word, the pending byte count in
/// the upper half.
pub fn write_transmit_buffer_descriptor(mem: &mut PacketMemory, index: usize, addr: u16, len: u16)
    requires
        old(mem).wf(),
        index < EP_COUNT,
    ensures
        final(mem).wf(),
        final(mem).words@ == old(mem).words@.update(
            2 * index as int,
            (addr as u32) | ((len as u32) << 16),
        ),
{
    let w = (addr as u32) | ((len as u32) << 16);
    mem.words.set(index * 2, w);
}

/// Writes the receive half of channel `index`'s buffer descriptor: the
/// region address in the lower half of the word, the receive-length code in
/// the upper half.
pub fn write_receive_buffer_descriptor(mem: &mut PacketMemory, index: usize, addr: u16, max_len_bits: u16)
    requires
        old(mem).wf(),
        index < EP_COUNT,
    ensures
        final(mem).wf(),
        final(mem).words@ == old(mem).words@.update(
            2 * index as int + 1,
            (addr as u32) | ((max_len_bits as u32) << 16),
        ),
{
    let w = (addr as u32) | ((max_len_bits as u32) << 16);
    mem.words.set(index * 2 + 1, w);
}

/// The byte count the peripheral recorded in the upper half of channel
/// `index`'s receive descriptor after a completed receive transaction.
pub open spec fn spec_read_out_len(mem: PacketMemory, index: int) -> u32 {
    (mem.words@[2 * index + 1] >> 16) & 0xFFFF
}

/// Reads back the upper half of a channel's receive descriptor, where the
/// hardware records the received byte count.
pub fn read_out_len(mem: &PacketMemory, index: usize) -> (r: u16)
    requires
        mem.wf(),
        index < EP_COUNT,
    ensures
        r == spec_read_out_len(*mem, index as int),
{
    let w = mem.words[index * 2 + 1];
    proof {
        lemma_field_bounds(w);
    }
    ((w >> 16) & 0xFFFF) as u16
}

} // verus!
