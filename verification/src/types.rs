//! Plain data types of the driver's public interface.

use vstd::prelude::*;

verus! {

/// Transfer type of an endpoint, as a descriptor carries it.
#[derive(Clone, Copy, PartialEq, Eq, Structural, Debug)]
pub enum EndpointType {
    /// Control endpoint.
    Control,
    /// Isochronous endpoint.
    Isochronous,
    /// Bulk endpoint.
    Bulk,
    /// Interrupt endpoint.
    Interrupt,
}

/// Transfer type of a channel, as the control register's type field encodes
/// it.
#[derive(Clone, Copy, PartialEq, Eq, Structural, Debug)]
pub enum EpType {
    /// Bulk channel.
    Bulk,
    /// Control channel.
    Control,
    /// Isochronous channel.
    Iso,
    /// Interrupt channel.
    Interrupt,
}

/// The register encoding of a channel type.
pub open spec fn ep_type_bits(t: EpType) -> u32 {
    match t {
        EpType::Bulk => 0,
        EpType::Control => 1,
        EpType::Iso => 2,
        EpType::Interrupt => 3,
    }
}

/// Maps a descriptor's transfer type to the register encoding's.
pub fn convert_type(t: EndpointType) -> (r: EpType)
    ensures
        r == (match t {
            EndpointType::Bulk => EpType::Bulk,
            EndpointType::Control => EpType::Control,
            EndpointType::Interrupt => EpType::Interrupt,
            EndpointType::Isochronous => EpType::Iso,
        }),
{
    match t {
        EndpointType::Bulk => EpType::Bulk,
        EndpointType::Control => EpType::Control,
        EndpointType::Interrupt => EpType::Interrupt,
        EndpointType::Isochronous => EpType::Iso,
    }
}

/// Reads the register encoding of a channel type.
pub fn ep_type_to_bits(t: EpType) -> (r: u32)
    ensures
        r == ep_type_bits(t),
{
    match t {
        EpType::Bulk => 0,
        EpType::Control => 1,
        EpType::Iso => 2,
        EpType::Interrupt => 3,
    }
}

/// Ways a transfer on a claimed channel can fail.
#[derive(Clone, Copy, PartialEq, Eq, Structural, Debug)]
pub enum ChannelError {
    /// The peer answered with more data than the caller's buffer holds, or
    /// the data handed to a write does not fit the channel's region.
    BufferOverflow,
    /// The bus reported no connected device.
    Disconnected,
    /// The caller's time budget ran out before the transfer finished.
    Timeout,
    /// The peer rejected the transaction outright.
    Stall,
}

/// Ways claiming a channel can fail.
#[derive(Clone, Copy, PartialEq, Eq, Structural, Debug)]
pub enum ClaimError {
    /// The descriptor does not name a claimable channel.
    InvalidEndpoint,
    /// The channel index is already claimed in this direction.
    AlreadyInUse,
    /// The packet memory cannot hold another region of the requested size.
    OutOfMemory,
}

/// Per-transfer options.
#[derive(Clone, Copy, Debug)]
pub struct TransferOptions {
    /// Time budget of the transfer in milliseconds; `None` waits without
    /// bound.
    pub timeout_ms: Option<u32>,
}

impl Default for TransferOptions {
    /// No time budget.
    fn default() -> (r: TransferOptions)
        ensures
            r.timeout_ms is None,
    {
        TransferOptions { timeout_ms: None }
    }
}

impl TransferOptions {
    /// Replaces the time budget.
    pub fn set_timeout_ms(self, timeout_ms: u32) -> (r: TransferOptions)
        ensures
            r.timeout_ms == Some(timeout_ms),
    {
        TransferOptions { timeout_ms: Some(timeout_ms) }
    }
}

/// Whether a transfer's time budget has run out `elapsed_ms` milliseconds
/// after it was started.
pub open spec fn spec_timed_out(options: TransferOptions, elapsed_ms: u64) -> bool {
    match options.timeout_ms {
        Some(t) => elapsed_ms > t,
        None => false,
    }
}

/// An endpoint descriptor, as the enumeration of a device reports it.
#[derive(Clone, Copy, Debug)]
pub struct EndpointDescriptor {
    /// Length of the descriptor in bytes.
    pub len: u8,
    /// Descriptor type code.
    pub descriptor_type: u8,
    /// Endpoint address: the index in the low bits, the direction in bit 7
    /// (set for In).
    pub endpoint_address: u8,
    /// Attributes; the transfer type sits in the two low bits.
    pub attributes: u8,
    /// Maximum packet size of the endpoint.
    pub max_packet_size: u16,
    /// Polling interval.
    pub interval: u8,
}

impl EndpointDescriptor {
    /// The transfer type carried in the attributes field.
    pub fn ep_type(&self) -> (r: EndpointType)
        ensures
            r == (match self.attributes % 4 {
                0 => EndpointType::Control,
                1 => EndpointType::Isochronous,
                2 => EndpointType::Bulk,
                _ => EndpointType::Interrupt,
            }),
    {
        match self.attributes % 4 {
            0 => EndpointType::Control,
            1 => EndpointType::Isochronous,
            2 => EndpointType::Bulk,
            _ => EndpointType::Interrupt,
        }
    }
}

/// Outcome of one poll of an in-flight read.
#[derive(Clone, Copy, PartialEq, Eq, Structural, Debug)]
pub enum ReadPoll {
    /// Nothing to report yet; poll again after the next wake.
    Pending,
    /// The read finished; the total byte count over all its transactions.
    Complete(usize),
    /// The read failed.
    Failed(ChannelError),
}

/// Outcome of one poll of an in-flight write.
#[derive(Clone, Copy, PartialEq, Eq, Structural, Debug)]
pub enum WritePoll {
    /// Nothing to report yet; poll again after the next wake.
    Pending,
    /// The write finished.
    Complete,
    /// The write failed.
    Failed(ChannelError),
}

} // verus!
