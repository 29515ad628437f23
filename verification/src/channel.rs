//! Claimed channels and the per-poll decisions of the transfer engine.
//!
//! A channel binds an index and a direction to a control register and a
//! packet-memory region. A logical read or write spans one or more hardware
//! transactions; between transactions the owning task sleeps and, on every
//! wake, calls the poll function, which re-reads the modelled hardware state
//! and either keeps waiting, finishes, or fails. The poll functions are
//! deterministic in the observed state, so the engine is robust against
//! spurious and coalesced wakeups.

use vstd::prelude::*;
use core::marker::PhantomData;
use crate::hw::{Registers, PacketMemory, EP_COUNT, USBRAM_SIZE, device_connected,
    device_connected_istr};
use crate::epr::{EPR_STAT_RX_MASK, EPR_STAT_TX_MASK, stat_rx_of, stat_tx_of, stat_bits, Stat,
    read_stat_rx, read_stat_tx, rx_arm_value, rx_stop_value, tx_arm_value, tx_stop_value,
    lemma_rx_arm, lemma_rx_stop, lemma_tx_arm, lemma_tx_stop};
use crate::buffer::{EndpointBuffer, region_byte, spec_word_count, lemma_div4_split};
use vstd::arithmetic::div_mod::lemma_fundamental_div_mod;
use crate::btable::{read_out_len, write_transmit_buffer_descriptor};
use crate::bits::lemma_rx_count_mask;
use crate::types::{ChannelError, TransferOptions, ReadPoll, WritePoll, spec_timed_out};

verus! {

/// Marker type for the In (device-to-host) direction.
pub enum In {
    /// The only value; the type is used as a marker.
    In,
}

/// Marker type for the Out (host-to-device) direction.
pub enum Out {
    /// The only value; the type is used as a marker.
    Out,
}

/// A claimed channel: an index bound to a control register and a
/// packet-memory region, for one direction.
pub struct Channel<D> {
    /// Hardware channel index.
    pub index: usize,
    /// Negotiated maximum packet size.
    pub max_packet_size: u16,
    /// The channel's region of the packet memory.
    pub buf: EndpointBuffer,
    /// Direction marker.
    pub dir: PhantomData<D>,
}

/// The byte count the peripheral recorded for the last completed receive
/// transaction of a channel, masked to its ten valid bits.
pub open spec fn spec_rx_count(mem: PacketMemory, index: int) -> u32 {
    (mem.words@[2 * index + 1] >> 16) & 0x3FF
}

/// Whether a completed receive transaction of `n` bytes ends a read that
/// has accumulated `total` bytes so far (the transaction included): the
/// read is done when the caller's buffer is full or the packet was short.
pub open spec fn read_finishes(total: int, limit: int, n: int, mps: int) -> bool {
    total == limit || n < mps
}

impl<D> Channel<D> {
    pub open spec fn wf(self) -> bool {
        &&& self.index < EP_COUNT
        &&& self.buf.wf()
        &&& (self.buf.len > 0 ==> self.buf.addr >= EP_COUNT * 8)
    }

    /// Binds a channel object to an index and a packet-memory region.
    pub fn new(index: usize, addr: u16, len: u16, max_packet_size: u16) -> (r: Channel<D>)
        requires
            index < EP_COUNT,
            addr % 4 == 0,
            len % 4 == 0,
            addr + len <= USBRAM_SIZE,
            len > 0 ==> addr >= EP_COUNT * 8,
        ensures
            r.wf(),
            r.index == index,
            r.max_packet_size == max_packet_size,
            r.buf.addr == addr,
            r.buf.len == len,
    {
        Channel { index, max_packet_size, buf: EndpointBuffer { addr, len }, dir: PhantomData }
    }
}

impl Channel<In> {
    /// Arms the channel: drives the receive status to `Valid` so the
    /// hardware will attempt the next transaction. No other register field
    /// changes.
    pub fn activate(&self, regs: &mut Registers)
        requires
            self.wf(),
            old(regs).wf(),
        ensures
            final(regs).wf(),
            final(regs).istr == old(regs).istr,
            final(regs).epr@ == old(regs).epr@.update(
                self.index as int,
                old(regs).epr@[self.index as int] | EPR_STAT_RX_MASK,
            ),
            stat_rx_of(final(regs).epr@[self.index as int]) == stat_bits(Stat::Valid),
    {
        let e = regs.read_epr(self.index);
        let v = rx_arm_value(e);
        proof {
            lemma_rx_arm(e);
        }
        regs.write_epr(self.index, v);
    }

    /// Disables the channel: drives the receive status to `Disabled`,
    /// stopping any in-flight transaction. No other register field changes.
    pub fn disable(&self, regs: &mut Registers)
        requires
            self.wf(),
            old(regs).wf(),
        ensures
            final(regs).wf(),
            final(regs).istr == old(regs).istr,
            final(regs).epr@ == old(regs).epr@.update(
                self.index as int,
                old(regs).epr@[self.index as int] & !EPR_STAT_RX_MASK,
            ),
            stat_rx_of(final(regs).epr@[self.index as int]) == stat_bits(Stat::Disabled),
    {
        let e = regs.read_epr(self.index);
        let v = rx_stop_value(e);
        proof {
            lemma_rx_stop(e);
        }
        regs.write_epr(self.index, v);
    }

    /// Copies the bytes of a completed receive transaction out of the
    /// channel's region and appends them to `dest`, whose final length the
    /// caller caps at `limit`.
    pub fn read_data(&self, mem: &PacketMemory, dest: &mut Vec<u8>, limit: usize) -> (r: Result<
        usize,
        ChannelError,
    >)
        requires
            mem.wf(),
            self.wf(),
            old(dest)@.len() <= limit,
            spec_rx_count(*mem, self.index as int) <= self.buf.len,
        ensures
            match r {
                Ok(n) => {
                    &&& n == spec_rx_count(*mem, self.index as int)
                    &&& old(dest)@.len() + n <= limit
                    &&& final(dest)@ == old(dest)@ + Seq::new(
                        n as nat,
                        |k: int| region_byte(*mem, self.buf.addr as int, k),
                    )
                },
                Err(err) => {
                    &&& err == ChannelError::BufferOverflow
                    &&& spec_rx_count(*mem, self.index as int) > limit - old(dest)@.len()
                    &&& final(dest)@ == old(dest)@
                },
            },
    {
        let raw = read_out_len(mem, self.index);
        proof {
            lemma_rx_count_mask(mem.words@[2 * self.index as int + 1]);
        }
        let rx_len = (raw & 0x3FF) as usize;
        if rx_len > limit - dest.len() {
            return Err(ChannelError::BufferOverflow);
        }
        let mut chunk = self.buf.read(mem, rx_len);
        proof {
            assert(chunk@ =~= Seq::new(
                rx_len as nat,
                |k: int| region_byte(*mem, self.buf.addr as int, k),
            ));
        }
        dest.append(&mut chunk);
        Ok(rx_len)
    }

    /// One poll of an in-flight read: registers nothing, trusts nothing
    /// from the wake itself, and decides from the observed state alone.
    ///
    /// Disconnection is checked first and timeout second; either disables
    /// the channel and fails the read. Otherwise the receive status decides:
    /// `Disabled` means a transaction completed, whose bytes are appended to
    /// `dest` (the read fails with `BufferOverflow` if they do not fit in
    /// `limit`); the read completes when `dest` reaches `limit` or the
    /// transaction was a short packet, and re-arms otherwise. `Stall` fails
    /// the read at once. `Nak` and `Valid` keep waiting without touching
    /// the register.
    pub fn poll_read(
        &self,
        regs: &mut Registers,
        mem: &PacketMemory,
        dest: &mut Vec<u8>,
        limit: usize,
        elapsed_ms: u64,
        options: &TransferOptions,
    ) -> (r: ReadPoll)
        requires
            self.wf(),
            old(regs).wf(),
            mem.wf(),
            old(dest)@.len() <= limit,
            stat_rx_of(old(regs).epr@[self.index as int]) == stat_bits(Stat::Disabled)
                ==> spec_rx_count(*mem, self.index as int) <= self.buf.len,
        ensures
            final(regs).wf(),
            ({
                let i = self.index as int;
                let e0 = old(regs).epr@[i];
                let n = spec_rx_count(*mem, i) as int;
                let total = old(dest)@.len() + n;
                if !device_connected_istr(old(regs).istr) {
                    &&& r == ReadPoll::Failed(ChannelError::Disconnected)
                    &&& final(regs).istr == old(regs).istr
                    &&& final(regs).epr@ == old(regs).epr@.update(i, e0 & !EPR_STAT_RX_MASK)
                    &&& stat_rx_of(final(regs).epr@[i]) == stat_bits(Stat::Disabled)
                    &&& final(dest)@ == old(dest)@
                } else if spec_timed_out(*options, elapsed_ms) {
                    &&& r == ReadPoll::Failed(ChannelError::Timeout)
                    &&& final(regs).istr == old(regs).istr
                    &&& final(regs).epr@ == old(regs).epr@.update(i, e0 & !EPR_STAT_RX_MASK)
                    &&& stat_rx_of(final(regs).epr@[i]) == stat_bits(Stat::Disabled)
                    &&& final(dest)@ == old(dest)@
                } else if stat_rx_of(e0) == stat_bits(Stat::Stall) {
                    &&& r == ReadPoll::Failed(ChannelError::Stall)
                    &&& *final(regs) == *old(regs)
                    &&& final(dest)@ == old(dest)@
                } else if stat_rx_of(e0) != stat_bits(Stat::Disabled) {
                    &&& r == ReadPoll::Pending
                    &&& *final(regs) == *old(regs)
                    &&& final(dest)@ == old(dest)@
                } else if n > limit - old(dest)@.len() {
                    &&& r == ReadPoll::Failed(ChannelError::BufferOverflow)
                    &&& *final(regs) == *old(regs)
                    &&& final(dest)@ == old(dest)@
                } else {
                    &&& final(dest)@ == old(dest)@ + Seq::new(
                        n as nat,
                        |k: int| region_byte(*mem, self.buf.addr as int, k),
                    )
                    &&& if read_finishes(total, limit as int, n, self.max_packet_size as int) {
                        &&& r == ReadPoll::Complete(total as usize)
                        &&& *final(regs) == *old(regs)
                    } else {
                        &&& r == ReadPoll::Pending
                        &&& final(regs).istr == old(regs).istr
                        &&& final(regs).epr@ == old(regs).epr@.update(i, e0 | EPR_STAT_RX_MASK)
                    }
                }
            }),
    {
        let istr = regs.read_istr();
        if !device_connected(istr) {
            self.disable(regs);
            return ReadPoll::Failed(ChannelError::Disconnected);
        }
        let timed = match options.timeout_ms {
            Some(t) => elapsed_ms > t as u64,
            None => false,
        };
        if timed {
            self.disable(regs);
            return ReadPoll::Failed(ChannelError::Timeout);
        }
        let e = regs.read_epr(self.index);
        match read_stat_rx(e) {
            Stat::Disabled => {
                match self.read_data(mem, dest, limit) {
                    Ok(n) => {
                        if dest.len() == limit || n < self.max_packet_size as usize {
                            ReadPoll::Complete(dest.len())
                        } else {
                            self.activate(regs);
                            ReadPoll::Pending
                        }
                    },
                    Err(err) => ReadPoll::Failed(err),
                }
            },
            Stat::Stall => ReadPoll::Failed(ChannelError::Stall),
            Stat::Nak => ReadPoll::Pending,
            Stat::Valid => ReadPoll::Pending,
        }
    }
}

impl Channel<Out> {
    /// Arms the channel: drives the transmit status to `Valid` so the
    /// hardware will attempt the next transaction. No other register field
    /// changes.
    pub fn activate(&self, regs: &mut Registers)
        requires
            self.wf(),
            old(regs).wf(),
        ensures
            final(regs).wf(),
            final(regs).istr == old(regs).istr,
            final(regs).epr@ == old(regs).epr@.update(
                self.index as int,
                old(regs).epr@[self.index as int] | EPR_STAT_TX_MASK,
            ),
            stat_tx_of(final(regs).epr@[self.index as int]) == stat_bits(Stat::Valid),
    {
        let e = regs.read_epr(self.index);
        let v = tx_arm_value(e);
        proof {
            lemma_tx_arm(e);
        }
        regs.write_epr(self.index, v);
    }

    /// Disables the channel: drives the transmit status to `Disabled`,
    /// stopping any in-flight transaction. No other register field changes.
    pub fn disable(&self, regs: &mut Registers)
        requires
            self.wf(),
            old(regs).wf(),
        ensures
            final(regs).wf(),
            final(regs).istr == old(regs).istr,
            final(regs).epr@ == old(regs).epr@.update(
                self.index as int,
                old(regs).epr@[self.index as int] & !EPR_STAT_TX_MASK,
            ),
            stat_tx_of(final(regs).epr@[self.index as int]) == stat_bits(Stat::Disabled),
    {
        let e = regs.read_epr(self.index);
        let v = tx_stop_value(e);
        proof {
            lemma_tx_stop(e);
        }
        regs.write_epr(self.index, v);
    }

    /// Queues `data` for transmission: copies it into the channel's region
    /// and writes the transmit descriptor with the region address and the
    /// byte count. Data longer than the region is rejected before the
    /// packet memory or any descriptor is touched.
    pub fn write_data(&self, mem: &mut PacketMemory, data: &Vec<u8>) -> (r: Result<
        (),
        ChannelError,
    >)
        requires
            old(mem).wf(),
            self.wf(),
        ensures
            final(mem).wf(),
            ({
                let addr = self.buf.addr as int;
                let wc = spec_word_count(data@.len() as int);
                if data@.len() > self.buf.len {
                    &&& r == Err::<(), ChannelError>(ChannelError::BufferOverflow)
                    &&& *final(mem) == *old(mem)
                } else {
                    &&& r == Ok::<(), ChannelError>(())
                    &&& forall|k: int|
                        0 <= k < data@.len() ==> #[trigger] region_byte(*final(mem), addr, k)
                            == data@[k]
                    &&& final(mem).words@[2 * self.index as int] == (self.buf.addr as u32) | ((
                    data@.len() as u32) << 16)
                    &&& forall|wi: int|
                        0 <= wi < final(mem).words@.len() && wi != 2 * self.index as int && !(addr
                            / 4 <= wi < addr / 4 + wc) ==> final(mem).words@[wi] == old(
                            mem,
                        ).words@[wi]
                }
            }),
    {
        if data.len() > self.buf.len as usize {
            return Err(ChannelError::BufferOverflow);
        }
        self.buf.write(mem, data);
        let ghost mem1 = *mem;
        write_transmit_buffer_descriptor(mem, self.index, self.buf.addr, data.len() as u16);
        proof {
            let addr = self.buf.addr as int;
            let n = data@.len() as int;
            if n > 0 {
                assert(addr / 4 >= 16 && 4 * (addr / 4) == addr) by (nonlinear_arith)
                    requires
                        addr % 4 == 0,
                        addr >= 64,
                ;
                assert forall|k: int| 0 <= k < n implies #[trigger] region_byte(*mem, addr, k)
                    == data@[k] by {
                    lemma_fundamental_div_mod(k, 4);
                    lemma_div4_split(addr / 4 + k / 4, k % 4);
                    assert(k / 4 < spec_word_count(n) && 0 <= k / 4) by (nonlinear_arith)
                        requires
                            0 <= k < n,
                    ;
                    assert(region_byte(mem1, addr, k) == data@[k]);
                    assert(mem.words@[addr / 4 + k / 4] == mem1.words@[addr / 4 + k / 4]);
                }
            }
        }
        Ok(())
    }

    /// One poll of an in-flight write, deciding from the observed state
    /// alone: disconnection first, timeout second (either disables the
    /// channel and fails the write), then the transmit status: `Disabled`
    /// means the transaction completed and the write is done, `Stall` fails
    /// it at once, `Nak` and `Valid` keep waiting without touching the
    /// register.
    pub fn poll_write(
        &self,
        regs: &mut Registers,
        elapsed_ms: u64,
        options: &TransferOptions,
    ) -> (r: WritePoll)
        requires
            self.wf(),
            old(regs).wf(),
        ensures
            final(regs).wf(),
            ({
                let i = self.index as int;
                let e0 = old(regs).epr@[i];
                if !device_connected_istr(old(regs).istr) {
                    &&& r == WritePoll::Failed(ChannelError::Disconnected)
                    &&& final(regs).istr == old(regs).istr
                    &&& final(regs).epr@ == old(regs).epr@.update(i, e0 & !EPR_STAT_TX_MASK)
                    &&& stat_tx_of(final(regs).epr@[i]) == stat_bits(Stat::Disabled)
                } else if spec_timed_out(*options, elapsed_ms) {
                    &&& r == WritePoll::Failed(ChannelError::Timeout)
                    &&& final(regs).istr == old(regs).istr
                    &&& final(regs).epr@ == old(regs).epr@.update(i, e0 & !EPR_STAT_TX_MASK)
                    &&& stat_tx_of(final(regs).epr@[i]) == stat_bits(Stat::Disabled)
                } else if stat_tx_of(e0) == stat_bits(Stat::Disabled) {
                    &&& r == WritePoll::Complete
                    &&& *final(regs) == *old(regs)
                } else if stat_tx_of(e0) == stat_bits(Stat::Stall) {
                    &&& r == WritePoll::Failed(ChannelError::Stall)
                    &&& *final(regs) == *old(regs)
                } else {
                    &&& r == WritePoll::Pending
                    &&& *final(regs) == *old(regs)
                }
            }),
    {
        let istr = regs.read_istr();
        if !device_connected(istr) {
            self.disable(regs);
            return WritePoll::Failed(ChannelError::Disconnected);
        }
        let timed = match options.timeout_ms {
            Some(t) => elapsed_ms > t as u64,
            None => false,
        };
        if timed {
            self.disable(regs);
            return WritePoll::Failed(ChannelError::Timeout);
        }
        let e = regs.read_epr(self.index);
        match read_stat_tx(e) {
            Stat::Disabled => WritePoll::Complete,
            Stat::Stall => WritePoll::Failed(ChannelError::Stall),
            Stat::Nak => WritePoll::Pending,
            Stat::Valid => WritePoll::Pending,
        }
    }
}

} // verus!
