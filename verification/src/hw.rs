//! Models of the peripheral state the driver logic touches: the interrupt
//! status register, the per-channel control registers, and the shared packet
//! memory.
//!
//! Each write method applies the hardware's own write semantics (plain,
//! write-zero-to-clear, or write-one-to-toggle, see [`crate::epr`]), so the
//! contracts of everything built on top are proved against those semantics
//! rather than against plain stores. The `force_*` methods stand for the
//! peripheral's side of the protocol: the controller itself updating status
//! fields, completion flags and received counts as bus traffic happens.

use vstd::prelude::*;
use crate::epr::apply_epr_write;

verus! {

/// Number of hardware channels.
pub const EP_COUNT: usize = 8;

/// Size of the shared packet memory, in bytes.
pub const USBRAM_SIZE: u16 = 2048;

/// Access granularity of the packet memory, in bytes.
pub const USBRAM_ALIGN: u16 = 4;

/// Size of the shared packet memory, in words of [`USBRAM_ALIGN`] bytes.
pub const USBRAM_WORDS: usize = 512;

/// Channel index field of the interrupt status register (bits 0..4).
pub const ISTR_EP_ID_MASK: u32 = 0x0000_000F;
/// Bus reset / connection-change flag (bit 10), write-zero-to-clear.
pub const ISTR_RESET_MASK: u32 = 0x0000_0400;
/// Transaction error flag (bit 13), write-zero-to-clear.
pub const ISTR_ERR_MASK: u32 = 0x0000_2000;
/// Transaction complete flag (bit 15), read-only here; it falls when the
/// channel's own complete flags are cleared.
pub const ISTR_CTR_MASK: u32 = 0x0000_8000;
/// Device connection status (bit 29), read-only.
pub const ISTR_DCON_STAT_MASK: u32 = 0x2000_0000;
/// All write-zero-to-clear event flags of the interrupt status register.
pub const ISTR_W0C_MASK: u32 = 0x0000_7F80;

/// The interrupt status register value that results from writing `w` while
/// the register holds `cur`: event flags survive only where both the current
/// and the written bit are one, everything else is read-only.
pub open spec fn apply_istr_write(cur: u32, w: u32) -> u32 {
    (cur & !ISTR_W0C_MASK) | (cur & w & ISTR_W0C_MASK)
}

pub open spec fn device_connected_istr(istr: u32) -> bool {
    istr & ISTR_DCON_STAT_MASK != 0
}

/// Reads the connection status out of an interrupt status value.
pub fn device_connected(istr: u32) -> (r: bool)
    ensures
        r == device_connected_istr(istr),
{
    istr & ISTR_DCON_STAT_MASK != 0
}

/// The controller's register file: the interrupt status register and one
/// control register per channel.
pub struct Registers {
    /// Interrupt status register.
    pub istr: u32,
    /// Channel control registers, one per channel index.
    pub epr: Vec<u32>,
}

impl Registers {
    pub open spec fn wf(self) -> bool {
        self.epr@.len() == EP_COUNT
    }

    /// A register file in its reset state.
    pub fn new() -> (r: Registers)
        ensures
            r.wf(),
            r.istr == 0,
            forall|i: int| 0 <= i < EP_COUNT ==> r.epr@[i] == 0,
    {
        let mut epr: Vec<u32> = Vec::new();
        let mut i: usize = 0;
        while i < EP_COUNT
            invariant
                epr@.len() == i,
                i <= EP_COUNT,
                forall|j: int| 0 <= j < i ==> epr@[j] == 0,
            decreases EP_COUNT - i,
        {
            epr.push(0);
            i += 1;
        }
        Registers { istr: 0, epr }
    }

    /// Reads the interrupt status register.
    pub fn read_istr(&self) -> (r: u32)
        ensures
            r == self.istr,
    {
        self.istr
    }

    /// Writes the interrupt status register; event flags obey their
    /// write-zero-to-clear rule.
    pub fn write_istr(&mut self, w: u32)
        ensures
            final(self).wf() == old(self).wf(),
            final(self).istr == apply_istr_write(old(self).istr, w),
            final(self).epr == old(self).epr,
    {
        self.istr = (self.istr & !ISTR_W0C_MASK) | (self.istr & w & ISTR_W0C_MASK);
    }

    /// Reads one channel control register.
    pub fn read_epr(&self, index: usize) -> (r: u32)
        requires
            self.wf(),
            index < EP_COUNT,
        ensures
            r == self.epr@[index as int],
    {
        self.epr[index]
    }

    /// Writes one channel control register; its fields obey the semantics of
    /// [`apply_epr_write`].
    pub fn write_epr(&mut self, index: usize, w: u32)
        requires
            old(self).wf(),
            index < EP_COUNT,
        ensures
            final(self).wf(),
            final(self).istr == old(self).istr,
            final(self).epr@ == old(self).epr@.update(
                index as int,
                apply_epr_write(old(self).epr@[index as int], w),
            ),
    {
        let cur = self.epr[index];
        let applied = (w & !(crate::epr::EPR_TOGGLE_MASK | crate::epr::EPR_W0C_MASK)) | ((cur ^ w)
            & crate::epr::EPR_TOGGLE_MASK) | (cur & w & crate::epr::EPR_W0C_MASK);
        self.epr.set(index, applied);
    }

    /// The peripheral's own update of the interrupt status register: flags
    /// rise and the connection status changes as bus traffic happens.
    pub fn force_istr(&mut self, v: u32)
        ensures
            final(self).wf() == old(self).wf(),
            final(self).istr == v,
            final(self).epr == old(self).epr,
    {
        self.istr = v;
    }

    /// The peripheral's own update of a channel control register: status
    /// fields and completion flags change as transactions finish.
    pub fn force_epr(&mut self, index: usize, v: u32)
        requires
            old(self).wf(),
            index < EP_COUNT,
        ensures
            final(self).wf(),
            final(self).istr == old(self).istr,
            final(self).epr@ == old(self).epr@.update(index as int, v),
    {
        self.epr.set(index, v);
    }
}

/// One byte of a packet-memory word, little-endian: lane `k` holds byte `k`.
pub open spec fn word_byte(w: u32, k: int) -> u8 {
    if k == 0 {
        (w & 0xFF) as u8
    } else if k == 1 {
        ((w >> 8) & 0xFF) as u8
    } else if k == 2 {
        ((w >> 16) & 0xFF) as u8
    } else {
        ((w >> 24) & 0xFF) as u8
    }
}

/// The shared on-chip packet memory, addressed in 32-bit words. The first
/// [`EP_COUNT`]` * 8` bytes hold the buffer descriptor table.
pub struct PacketMemory {
    /// The memory's words, [`USBRAM_WORDS`] of them.
    pub words: Vec<u32>,
}

impl PacketMemory {
    pub open spec fn wf(self) -> bool {
        self.words@.len() == USBRAM_WORDS
    }

    /// The byte at byte address `a`.
    pub open spec fn byte_at(self, a: int) -> u8 {
        word_byte(self.words@[a / 4], a % 4)
    }

    /// A zero-filled packet memory.
    pub fn new() -> (r: PacketMemory)
        ensures
            r.wf(),
            forall|i: int| 0 <= i < USBRAM_WORDS ==> r.words@[i] == 0,
    {
        let mut words: Vec<u32> = Vec::new();
        let mut i: usize = 0;
        while i < USBRAM_WORDS
            invariant
                words@.len() == i,
                i <= USBRAM_WORDS,
                forall|j: int| 0 <= j < i ==> words@[j] == 0,
            decreases USBRAM_WORDS - i,
        {
            words.push(0);
            i += 1;
        }
        PacketMemory { words }
    }
}

} // verus!
