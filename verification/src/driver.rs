//! Channel allocation and lifecycle: the packet-memory bump allocator, the
//! in-use bookkeeping, and the claiming of channels.
//!
//! Packet memory is carved out by a bump pointer that only grows; no claim
//! is ever undone individually. The only reclamation is [`USBHostDriver::reset_alloc`],
//! which rewinds the pointer to the end of the descriptor table and clears
//! both in-use masks; it is used when the negotiated device address changes,
//! and it invalidates every channel claimed before it.

use vstd::prelude::*;
use crate::hw::{Registers, PacketMemory, EP_COUNT, USBRAM_SIZE};
use crate::epr::{apply_epr_write, spec_claim_write_value, claim_write_value, read_devaddr,
    devaddr_of, ea_of, ep_type_of, stat_rx_of, stat_tx_of, lemma_claim_write};
use crate::btable::{calc_receive_len_bits, align_len_up, write_receive_buffer_descriptor,
    write_in, spec_receive_alloc_len, spec_receive_len_bits, spec_align_len_up,
    lemma_receive_len_code};
use crate::channel::{Channel, In, Out};
use crate::types::{ClaimError, EpType, EndpointType, EndpointDescriptor, ep_type_bits,
    ep_type_to_bits, convert_type};
use crate::bits::lemma_mask_bit;

verus! {

/// Whether `index` is marked claimed in an in-use mask.
pub open spec fn in_use(mask: u8, index: usize) -> bool {
    mask & (1u8 << (index as u8)) != 0
}

/// The in-use mask with `index` marked claimed.
pub open spec fn with_bit(mask: u8, index: usize) -> u8 {
    mask | (1u8 << (index as u8))
}

/// The control register of a freshly claimed channel: the old value with
/// the channel address, transfer type and device address fields replaced,
/// every other field untouched.
pub open spec fn spec_claimed_epr(e: u32, index: usize, t: EpType, dev_addr: u8) -> u32 {
    apply_epr_write(e, spec_claim_write_value(e, index as u32, ep_type_bits(t), dev_addr as u32))
}

/// The driver's claim-time state: the bump pointer into packet memory, the
/// two in-use masks, and the pair of control channels for channel zero.
pub struct USBHostDriver {
    /// First free byte address of the packet memory.
    pub ep_mem_free: u16,
    /// Control channel of the In direction (channel zero).
    pub control_channel_in: Channel<In>,
    /// Control channel of the Out direction (channel zero).
    pub control_channel_out: Channel<Out>,
    /// In-use mask of the In channels.
    pub channels_in_used: u8,
    /// In-use mask of the Out channels.
    pub channels_out_used: u8,
}

impl USBHostDriver {
    pub open spec fn wf(self) -> bool {
        &&& EP_COUNT * 8 <= self.ep_mem_free <= USBRAM_SIZE
        &&& self.ep_mem_free % 4 == 0
    }

    /// A fresh driver: nothing claimed, the bump pointer at the end of the
    /// descriptor table, and an empty control channel pair that
    /// [`Self::reconfigure_channel0`] later binds.
    pub fn new() -> (r: USBHostDriver)
        ensures
            r.wf(),
            r.ep_mem_free == EP_COUNT * 8,
            r.channels_in_used == 0,
            r.channels_out_used == 0,
            r.control_channel_in.index == 0 && r.control_channel_in.buf.len == 0,
            r.control_channel_out.index == 0 && r.control_channel_out.buf.len == 0,
    {
        USBHostDriver {
            ep_mem_free: (EP_COUNT as u16) * 8,
            control_channel_in: Channel::<In>::new(0, 0, 0, 0),
            control_channel_out: Channel::<Out>::new(0, 0, 0, 0),
            channels_in_used: 0,
            channels_out_used: 0,
        }
    }

    /// Reads the raw interrupt status register.
    pub fn get_status(&self, regs: &Registers) -> (r: u32)
        ensures
            r == regs.istr,
    {
        regs.read_istr()
    }

    /// Rewinds the allocator to the end of the descriptor table and clears
    /// both in-use masks. The only way memory is ever reclaimed; every
    /// channel claimed before the reset is invalid afterwards.
    pub fn reset_alloc(&mut self)
        ensures
            final(self).wf(),
            final(self).ep_mem_free == EP_COUNT * 8,
            final(self).channels_in_used == 0,
            final(self).channels_out_used == 0,
            final(self).control_channel_in == old(self).control_channel_in,
            final(self).control_channel_out == old(self).control_channel_out,
    {
        self.ep_mem_free = (EP_COUNT as u16) * 8;
        self.channels_in_used = 0;
        self.channels_out_used = 0;
    }

    /// Reserves `len` bytes of packet memory, or reports that the memory is
    /// exhausted, in which case nothing changes.
    pub fn alloc_channel_mem(&mut self, len: u16) -> (r: Result<u16, ClaimError>)
        requires
            old(self).wf(),
            len % 4 == 0,
            len <= 1024,
        ensures
            final(self).wf(),
            final(self).channels_in_used == old(self).channels_in_used,
            final(self).channels_out_used == old(self).channels_out_used,
            final(self).control_channel_in == old(self).control_channel_in,
            final(self).control_channel_out == old(self).control_channel_out,
            match r {
                Ok(addr) => {
                    &&& addr == old(self).ep_mem_free
                    &&& final(self).ep_mem_free == addr + len
                    &&& addr + len <= USBRAM_SIZE
                },
                Err(e) => {
                    &&& e == ClaimError::OutOfMemory
                    &&& old(self).ep_mem_free + len > USBRAM_SIZE
                    &&& *final(self) == *old(self)
                },
            },
    {
        let addr = self.ep_mem_free;
        if addr + len > USBRAM_SIZE {
            return Err(ClaimError::OutOfMemory);
        }
        self.ep_mem_free = addr + len;
        Ok(addr)
    }

    /// Claims channel `index` for the In direction: marks it used, reserves
    /// a region sized by the receive-length encoding, programs the receive
    /// descriptor, and binds the control register to the channel.
    ///
    /// A second claim of the same index without a reset in between fails
    /// with `AlreadyInUse` and changes nothing. When the packet memory is
    /// exhausted the claim fails with `OutOfMemory`; the index stays marked
    /// used, but neither memory nor any register is touched.
    pub fn claim_channel_in(
        &mut self,
        regs: &mut Registers,
        mem: &mut PacketMemory,
        index: usize,
        max_packet_size: u16,
        ep_type: EpType,
        dev_addr: u8,
    ) -> (r: Result<Channel<In>, ClaimError>)
        requires
            old(self).wf(),
            old(regs).wf(),
            old(mem).wf(),
            index < EP_COUNT,
            2 <= max_packet_size <= 1024,
            dev_addr < 128,
        ensures
            final(self).wf(),
            final(regs).wf(),
            final(mem).wf(),
            final(self).channels_out_used == old(self).channels_out_used,
            final(self).control_channel_in == old(self).control_channel_in,
            final(self).control_channel_out == old(self).control_channel_out,
            ({
                let alen = spec_receive_alloc_len(max_packet_size as int);
                let bits = spec_receive_len_bits(max_packet_size as int);
                let e0 = old(regs).epr@[index as int];
                if in_use(old(self).channels_in_used, index) {
                    &&& r == Err::<Channel<In>, ClaimError>(ClaimError::AlreadyInUse)
                    &&& *final(self) == *old(self)
                    &&& *final(regs) == *old(regs)
                    &&& *final(mem) == *old(mem)
                } else if old(self).ep_mem_free + alen > USBRAM_SIZE {
                    &&& r == Err::<Channel<In>, ClaimError>(ClaimError::OutOfMemory)
                    &&& final(self).channels_in_used == with_bit(old(self).channels_in_used, index)
                    &&& final(self).ep_mem_free == old(self).ep_mem_free
                    &&& *final(regs) == *old(regs)
                    &&& *final(mem) == *old(mem)
                } else {
                    &&& r matches Ok(ch)
                    &&& ch.wf()
                    &&& ch.index == index
                    &&& ch.max_packet_size == max_packet_size
                    &&& ch.buf.addr == old(self).ep_mem_free
                    &&& ch.buf.len == alen
                    &&& final(self).channels_in_used == with_bit(old(self).channels_in_used, index)
                    &&& final(self).ep_mem_free == old(self).ep_mem_free + alen
                    &&& final(mem).words@ == old(mem).words@.update(
                        2 * index as int + 1,
                        (old(self).ep_mem_free as u32) | ((bits as u32) << 16),
                    )
                    &&& final(regs).istr == old(regs).istr
                    &&& final(regs).epr@ == old(regs).epr@.update(
                        index as int,
                        spec_claimed_epr(e0, index, ep_type, dev_addr),
                    )
                    &&& ea_of(spec_claimed_epr(e0, index, ep_type, dev_addr)) == index
                    &&& ep_type_of(spec_claimed_epr(e0, index, ep_type, dev_addr)) == ep_type_bits(
                        ep_type,
                    )
                    &&& devaddr_of(spec_claimed_epr(e0, index, ep_type, dev_addr)) == dev_addr
                    &&& stat_rx_of(spec_claimed_epr(e0, index, ep_type, dev_addr)) == stat_rx_of(e0)
                    &&& stat_tx_of(spec_claimed_epr(e0, index, ep_type, dev_addr)) == stat_tx_of(e0)
                }
            }),
    {
        if self.channels_in_used & (1u8 << (index as u8)) != 0 {
            return Err(ClaimError::AlreadyInUse);
        }
        self.channels_in_used = self.channels_in_used | (1u8 << (index as u8));
        let (len, len_bits) = calc_receive_len_bits(max_packet_size);
        proof {
            lemma_receive_len_code(max_packet_size as int);
        }
        let addr = match self.alloc_channel_mem(len) {
            Ok(a) => a,
            Err(e) => {
                return Err(e);
            },
        };
        write_receive_buffer_descriptor(mem, index, addr, len_bits);
        let in_channel: Channel<In> = Channel::new(index, addr, len, max_packet_size);
        let e = regs.read_epr(index);
        let tb = ep_type_to_bits(ep_type);
        let v = claim_write_value(e, index as u32, tb, dev_addr as u32);
        proof {
            lemma_claim_write(e, index as u32, tb, dev_addr as u32);
        }
        regs.write_epr(index, v);
        Ok(in_channel)
    }

    /// Claims channel `index` for the Out direction: marks it used,
    /// reserves a region of the aligned maximum packet size, and binds the
    /// control register to the channel. The transmit descriptor itself is
    /// written only when data is queued.
    ///
    /// Failure behaves as in [`Self::claim_channel_in`].
    pub fn claim_channel_out(
        &mut self,
        regs: &mut Registers,
        mem: &mut PacketMemory,
        index: usize,
        max_packet_size: u16,
        ep_type: EpType,
        dev_addr: u8,
    ) -> (r: Result<Channel<Out>, ClaimError>)
        requires
            old(self).wf(),
            old(regs).wf(),
            old(mem).wf(),
            index < EP_COUNT,
            max_packet_size <= 1024,
            dev_addr < 128,
        ensures
            final(self).wf(),
            final(regs).wf(),
            final(mem).wf(),
            final(self).channels_in_used == old(self).channels_in_used,
            final(self).control_channel_in == old(self).control_channel_in,
            final(self).control_channel_out == old(self).control_channel_out,
            ({
                let alen = spec_align_len_up(max_packet_size as int);
                let e0 = old(regs).epr@[index as int];
                if in_use(old(self).channels_out_used, index) {
                    &&& r == Err::<Channel<Out>, ClaimError>(ClaimError::AlreadyInUse)
                    &&& *final(self) == *old(self)
                    &&& *final(regs) == *old(regs)
                    &&& *final(mem) == *old(mem)
                } else if old(self).ep_mem_free + alen > USBRAM_SIZE {
                    &&& r == Err::<Channel<Out>, ClaimError>(ClaimError::OutOfMemory)
                    &&& final(self).channels_out_used == with_bit(
                        old(self).channels_out_used,
                        index,
                    )
                    &&& final(self).ep_mem_free == old(self).ep_mem_free
                    &&& *final(regs) == *old(regs)
                    &&& *final(mem) == *old(mem)
                } else {
                    &&& r matches Ok(ch)
                    &&& ch.wf()
                    &&& ch.index == index
                    &&& ch.max_packet_size == max_packet_size
                    &&& ch.buf.addr == old(self).ep_mem_free
                    &&& ch.buf.len == alen
                    &&& final(self).channels_out_used == with_bit(
                        old(self).channels_out_used,
                        index,
                    )
                    &&& final(self).ep_mem_free == old(self).ep_mem_free + alen
                    &&& *final(mem) == *old(mem)
                    &&& final(regs).istr == old(regs).istr
                    &&& final(regs).epr@ == old(regs).epr@.update(
                        index as int,
                        spec_claimed_epr(e0, index, ep_type, dev_addr),
                    )
                    &&& ea_of(spec_claimed_epr(e0, index, ep_type, dev_addr)) == index
                    &&& ep_type_of(spec_claimed_epr(e0, index, ep_type, dev_addr)) == ep_type_bits(
                        ep_type,
                    )
                    &&& devaddr_of(spec_claimed_epr(e0, index, ep_type, dev_addr)) == dev_addr
                    &&& stat_rx_of(spec_claimed_epr(e0, index, ep_type, dev_addr)) == stat_rx_of(e0)
                    &&& stat_tx_of(spec_claimed_epr(e0, index, ep_type, dev_addr)) == stat_tx_of(e0)
                }
            }),
    {
        if self.channels_out_used & (1u8 << (index as u8)) != 0 {
            return Err(ClaimError::AlreadyInUse);
        }
        self.channels_out_used = self.channels_out_used | (1u8 << (index as u8));
        let len = align_len_up(max_packet_size);
        proof {
            assert(spec_align_len_up(max_packet_size as int) % 4 == 0 && max_packet_size
                <= spec_align_len_up(max_packet_size as int) <= 1024) by (nonlinear_arith)
                requires
                    max_packet_size <= 1024,
            ;
        }
        let addr = match self.alloc_channel_mem(len) {
            Ok(a) => a,
            Err(e) => {
                return Err(e);
            },
        };
        write_in(index, addr);
        let out_channel: Channel<Out> = Channel::new(index, addr, len, max_packet_size);
        let e = regs.read_epr(index);
        let tb = ep_type_to_bits(ep_type);
        let v = claim_write_value(e, index as u32, tb, dev_addr as u32);
        proof {
            lemma_claim_write(e, index as u32, tb, dev_addr as u32);
        }
        regs.write_epr(index, v);
        Ok(out_channel)
    }

    /// Claims the In channel named by an endpoint descriptor, reading the
    /// device address to bind from channel zero's control register. The
    /// descriptor must carry an In address (direction bit set) with a
    /// non-zero index below the channel count; anything else is rejected
    /// without touching any state.
    pub fn alloc_channel_in(
        &mut self,
        regs: &mut Registers,
        mem: &mut PacketMemory,
        desc: &EndpointDescriptor,
    ) -> (r: Result<Channel<In>, ClaimError>)
        requires
            old(self).wf(),
            old(regs).wf(),
            old(mem).wf(),
            2 <= desc.max_packet_size <= 1024,
        ensures
            final(self).wf(),
            final(regs).wf(),
            final(mem).wf(),
            final(self).channels_out_used == old(self).channels_out_used,
            final(self).control_channel_in == old(self).control_channel_in,
            final(self).control_channel_out == old(self).control_channel_out,
            ({
                let index = (desc.endpoint_address - 0x80) as usize;
                let alen = spec_receive_alloc_len(desc.max_packet_size as int);
                let bits = spec_receive_len_bits(desc.max_packet_size as int);
                let dev_addr = devaddr_of(old(regs).epr@[0]);
                let e0 = old(regs).epr@[index as int];
                if desc.endpoint_address < 0x80 || index == 0 || index >= EP_COUNT {
                    &&& r == Err::<Channel<In>, ClaimError>(ClaimError::InvalidEndpoint)
                    &&& *final(self) == *old(self)
                    &&& *final(regs) == *old(regs)
                    &&& *final(mem) == *old(mem)
                } else if in_use(old(self).channels_in_used, index) {
                    &&& r == Err::<Channel<In>, ClaimError>(ClaimError::AlreadyInUse)
                    &&& *final(self) == *old(self)
                    &&& *final(regs) == *old(regs)
                    &&& *final(mem) == *old(mem)
                } else if old(self).ep_mem_free + alen > USBRAM_SIZE {
                    &&& r == Err::<Channel<In>, ClaimError>(ClaimError::OutOfMemory)
                    &&& final(self).channels_in_used == with_bit(old(self).channels_in_used, index)
                    &&& final(self).ep_mem_free == old(self).ep_mem_free
                    &&& *final(regs) == *old(regs)
                    &&& *final(mem) == *old(mem)
                } else {
                    &&& r matches Ok(ch)
                    &&& ch.wf()
                    &&& ch.index == index
                    &&& ch.max_packet_size == desc.max_packet_size
                    &&& ch.buf.addr == old(self).ep_mem_free
                    &&& ch.buf.len == alen
                    &&& final(self).channels_in_used == with_bit(old(self).channels_in_used, index)
                    &&& final(self).ep_mem_free == old(self).ep_mem_free + alen
                    &&& final(mem).words@ == old(mem).words@.update(
                        2 * index as int + 1,
                        (old(self).ep_mem_free as u32) | ((bits as u32) << 16),
                    )
                    &&& final(regs).istr == old(regs).istr
                    &&& final(regs).epr@ == old(regs).epr@.update(
                        index as int,
                        spec_claimed_epr(
                            e0,
                            index,
                            convert_type_spec(desc_type_spec(*desc)),
                            dev_addr as u8,
                        ),
                    )
                }
            }),
    {
        if desc.endpoint_address < 0x80 {
            return Err(ClaimError::InvalidEndpoint);
        }
        let index = (desc.endpoint_address - 0x80) as usize;
        if index == 0 {
            return Err(ClaimError::InvalidEndpoint);
        }
        if index > EP_COUNT - 1 {
            return Err(ClaimError::InvalidEndpoint);
        }
        let max_packet_size = desc.max_packet_size;
        let ep_type = desc.ep_type();
        let addr = read_devaddr(regs.read_epr(0));
        self.claim_channel_in(regs, mem, index, max_packet_size, convert_type(ep_type), addr)
    }

    /// Claims the Out channel named by an endpoint descriptor, reading the
    /// device address to bind from channel zero's control register. The
    /// descriptor must carry an Out address with a non-zero index below the
    /// channel count; anything else is rejected without touching any state.
    pub fn alloc_channel_out(
        &mut self,
        regs: &mut Registers,
        mem: &mut PacketMemory,
        desc: &EndpointDescriptor,
    ) -> (r: Result<Channel<Out>, ClaimError>)
        requires
            old(self).wf(),
            old(regs).wf(),
            old(mem).wf(),
            desc.max_packet_size <= 1024,
        ensures
            final(self).wf(),
            final(regs).wf(),
            final(mem).wf(),
            final(self).channels_in_used == old(self).channels_in_used,
            final(self).control_channel_in == old(self).control_channel_in,
            final(self).control_channel_out == old(self).control_channel_out,
            ({
                let index = desc.endpoint_address as usize;
                let alen = spec_align_len_up(desc.max_packet_size as int);
                let dev_addr = devaddr_of(old(regs).epr@[0]);
                let e0 = old(regs).epr@[index as int];
                if index == 0 || index >= EP_COUNT {
                    &&& r == Err::<Channel<Out>, ClaimError>(ClaimError::InvalidEndpoint)
                    &&& *final(self) == *old(self)
                    &&& *final(regs) == *old(regs)
                    &&& *final(mem) == *old(mem)
                } else if in_use(old(self).channels_out_used, index) {
                    &&& r == Err::<Channel<Out>, ClaimError>(ClaimError::AlreadyInUse)
                    &&& *final(self) == *old(self)
                    &&& *final(regs) == *old(regs)
                    &&& *final(mem) == *old(mem)
                } else if old(self).ep_mem_free + alen > USBRAM_SIZE {
                    &&& r == Err::<Channel<Out>, ClaimError>(ClaimError::OutOfMemory)
                    &&& final(self).channels_out_used == with_bit(
                        old(self).channels_out_used,
                        index,
                    )
                    &&& final(self).ep_mem_free == old(self).ep_mem_free
                    &&& *final(regs) == *old(regs)
                    &&& *final(mem) == *old(mem)
                } else {
                    &&& r matches Ok(ch)
                    &&& ch.wf()
                    &&& ch.index == index
                    &&& ch.max_packet_size == desc.max_packet_size
                    &&& ch.buf.addr == old(self).ep_mem_free
                    &&& ch.buf.len == alen
                    &&& final(self).channels_out_used == with_bit(
                        old(self).channels_out_used,
                        index,
                    )
                    &&& final(self).ep_mem_free == old(self).ep_mem_free + alen
                    &&& *final(mem) == *old(mem)
                    &&& final(regs).istr == old(regs).istr
                    &&& final(regs).epr@ == old(regs).epr@.update(
                        index as int,
                        spec_claimed_epr(
                            e0,
                            index,
                            convert_type_spec(desc_type_spec(*desc)),
                            dev_addr as u8,
                        ),
                    )
                }
            }),
    {
        let index = desc.endpoint_address as usize;
        if index == 0 {
            return Err(ClaimError::InvalidEndpoint);
        }
        if index > EP_COUNT - 1 {
            return Err(ClaimError::InvalidEndpoint);
        }
        let max_packet_size = desc.max_packet_size;
        let ep_type = desc.ep_type();
        let addr = read_devaddr(regs.read_epr(0));
        self.claim_channel_out(regs, mem, index, max_packet_size, convert_type(ep_type), addr)
    }

    /// Rewinds the allocator and re-claims channel zero in both directions
    /// with a new maximum packet size and device address; used whenever the
    /// negotiated device address changes. Every other channel is invalid
    /// afterwards and must be re-claimed.
    pub fn reconfigure_channel0(
        &mut self,
        regs: &mut Registers,
        mem: &mut PacketMemory,
        max_packet_size: u16,
        dev_addr: u8,
    ) -> (r: Result<(), ClaimError>)
        requires
            old(self).wf(),
            old(regs).wf(),
            old(mem).wf(),
            2 <= max_packet_size <= 1024,
            dev_addr < 128,
        ensures
            final(self).wf(),
            final(regs).wf(),
            final(mem).wf(),
            ({
                let base = EP_COUNT * 8;
                let alen_in = spec_receive_alloc_len(max_packet_size as int);
                let alen_out = spec_align_len_up(max_packet_size as int);
                let bits = spec_receive_len_bits(max_packet_size as int);
                let e0 = old(regs).epr@[0];
                let e1 = spec_claimed_epr(e0, 0, EpType::Control, dev_addr);
                &&& final(self).channels_in_used == with_bit(0, 0)
                &&& final(mem).words@ == old(mem).words@.update(
                    1,
                    ((base as u32) | ((bits as u32) << 16)),
                )
                &&& final(regs).istr == old(regs).istr
                &&& if base + alen_in + alen_out <= USBRAM_SIZE {
                    &&& r == Ok::<(), ClaimError>(())
                    &&& final(self).channels_out_used == with_bit(0, 0)
                    &&& final(self).ep_mem_free == base + alen_in + alen_out
                    &&& final(self).control_channel_in.index == 0
                    &&& final(self).control_channel_in.max_packet_size == max_packet_size
                    &&& final(self).control_channel_in.buf.addr == base
                    &&& final(self).control_channel_in.buf.len == alen_in
                    &&& final(self).control_channel_in.wf()
                    &&& final(self).control_channel_out.index == 0
                    &&& final(self).control_channel_out.max_packet_size == max_packet_size
                    &&& final(self).control_channel_out.buf.addr == base + alen_in
                    &&& final(self).control_channel_out.buf.len == alen_out
                    &&& final(self).control_channel_out.wf()
                    &&& final(regs).epr@ == old(regs).epr@.update(
                        0,
                        spec_claimed_epr(e1, 0, EpType::Control, dev_addr),
                    )
                } else {
                    &&& r == Err::<(), ClaimError>(ClaimError::OutOfMemory)
                    &&& final(regs).epr@ == old(regs).epr@.update(0, e1)
                }
            }),
    {
        self.reset_alloc();
        let cin = match self.claim_channel_in(regs, mem, 0, max_packet_size, EpType::Control,
            dev_addr) {
            Ok(c) => c,
            Err(e) => {
                proof {
                    lemma_reset_enables_claim(0, max_packet_size);
                    assert(false);
                }
                return Err(e);
            },
        };
        let cout = match self.claim_channel_out(regs, mem, 0, max_packet_size, EpType::Control,
            dev_addr) {
            Ok(c) => c,
            Err(e) => {
                proof {
                    lemma_reset_enables_claim(0, max_packet_size);
                }
                return Err(e);
            },
        };
        self.control_channel_in = cin;
        self.control_channel_out = cout;
        Ok(())
    }
}

/// The transfer type a descriptor's attribute bits carry.
pub open spec fn desc_type_spec(desc: EndpointDescriptor) -> EndpointType {
    match desc.attributes % 4 {
        0 => EndpointType::Control,
        1 => EndpointType::Isochronous,
        2 => EndpointType::Bulk,
        _ => EndpointType::Interrupt,
    }
}

/// The register type code a descriptor's transfer type maps to.
pub open spec fn convert_type_spec(t: EndpointType) -> EpType {
    match t {
        EndpointType::Bulk => EpType::Bulk,
        EndpointType::Control => EpType::Control,
        EndpointType::Interrupt => EpType::Interrupt,
        EndpointType::Isochronous => EpType::Iso,
    }
}

/// A successful claim marks its index, and a marked index makes any further
/// claim of it (in the same direction, with no reset in between) end in
/// `AlreadyInUse`: the mask bit that the claim contracts test is set in the
/// mask they produce. Every other index's mark is left as it was, so one
/// claim never blocks another channel.
pub proof fn lemma_claim_twice_rejected(mask: u8, index: usize)
    requires
        index < EP_COUNT,
    ensures
        in_use(with_bit(mask, index), index),
        forall|j: usize|
            j < EP_COUNT && j != index ==> #[trigger] in_use(with_bit(mask, index), j) == in_use(
                mask,
                j,
            ),
{
    lemma_mask_bit(mask, index as u8);
    assert forall|j: usize| j < EP_COUNT && j != index implies #[trigger] in_use(
        with_bit(mask, index),
        j,
    ) == in_use(mask, j) by {
        assert((mask | (1u8 << (index as u8))) & (1u8 << (j as u8)) == mask & (1u8 << (j as u8)))
            by (bit_vector)
            requires
                index < 8,
                j < 8,
                j != index,
        ;
    }
}

/// After a reset nothing is claimed and every channel fits: both in-use
/// masks are empty, so no claim is `AlreadyInUse`, and the rewound bump
/// pointer leaves room for the region of any admissible maximum packet
/// size, so no claim is `OutOfMemory` either.
pub proof fn lemma_reset_enables_claim(index: usize, max_packet_size: u16)
    requires
        index < EP_COUNT,
        2 <= max_packet_size <= 1024,
    ensures
        !in_use(0, index),
        EP_COUNT * 8 + spec_receive_alloc_len(max_packet_size as int) <= USBRAM_SIZE,
        EP_COUNT * 8 + spec_align_len_up(max_packet_size as int) <= USBRAM_SIZE,
{
    lemma_mask_bit(0, index as u8);
    lemma_receive_len_code(max_packet_size as int);
    assert(spec_align_len_up(max_packet_size as int) <= 1024) by (nonlinear_arith)
        requires
            max_packet_size <= 1024,
    ;
}

} // verus!
