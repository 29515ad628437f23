//! Value-level model of the channel-control register.
//!
//! One such register exists per channel. Its fields do not all follow plain
//! read/write semantics: the transaction-complete and error flags are cleared
//! by writing a zero (a written one leaves them alone), and the status and
//! data-toggle fields are toggled by the ones of the written value (a written
//! zero leaves them alone). [`apply_epr_write`] states those semantics, and
//! every register mutation of the crate is proved against it.
//!
//! All mutations are built on [`canonicalize`], which maps a read value to
//! the base value whose write has no effect at all; the intended field change
//! is then composed on top of that base, so a write can never clear or toggle
//! a field the caller did not mean to touch.

use vstd::prelude::*;
use crate::bits::lemma_field_bounds;

verus! {

/// Channel address field (bits 0..4).
pub const EPR_EA_MASK: u32 = 0x0000_000F;
/// Transmit status field (bits 4..6), write-one-to-toggle.
pub const EPR_STAT_TX_MASK: u32 = 0x0000_0030;
/// Transmit data-toggle bit (bit 6), write-one-to-toggle.
pub const EPR_DTOG_TX_MASK: u32 = 0x0000_0040;
/// Transmit transaction-complete flag (bit 7), write-zero-to-clear.
pub const EPR_CTR_TX_MASK: u32 = 0x0000_0080;
/// Endpoint-kind bit (bit 8).
pub const EPR_EP_KIND_MASK: u32 = 0x0000_0100;
/// Transfer type field (bits 9..11).
pub const EPR_EP_TYPE_MASK: u32 = 0x0000_0600;
/// Setup-token bit (bit 11).
pub const EPR_SETUP_MASK: u32 = 0x0000_0800;
/// Receive status field (bits 12..14), write-one-to-toggle.
pub const EPR_STAT_RX_MASK: u32 = 0x0000_3000;
/// Receive data-toggle bit (bit 14), write-one-to-toggle.
pub const EPR_DTOG_RX_MASK: u32 = 0x0000_4000;
/// Receive transaction-complete flag (bit 15), write-zero-to-clear.
pub const EPR_CTR_RX_MASK: u32 = 0x0000_8000;
/// Device address field (bits 16..23).
pub const EPR_DEVADDR_MASK: u32 = 0x007F_0000;
/// Transmit error flag (bit 25), write-zero-to-clear.
pub const EPR_ERR_TX_MASK: u32 = 0x0200_0000;
/// Receive error flag (bit 26), write-zero-to-clear.
pub const EPR_ERR_RX_MASK: u32 = 0x0400_0000;

/// All write-one-to-toggle bits.
pub const EPR_TOGGLE_MASK: u32 = 0x0000_7070;
/// All write-zero-to-clear bits.
pub const EPR_W0C_MASK: u32 = 0x0600_8080;

/// Transaction status codes, as the two bits of a status field encode them.
#[derive(Clone, Copy, PartialEq, Eq, Structural, Debug)]
pub enum Stat {
    Disabled,
    Stall,
    Nak,
    Valid,
}

pub open spec fn stat_bits(s: Stat) -> u32 {
    match s {
        Stat::Disabled => 0,
        Stat::Stall => 1,
        Stat::Nak => 2,
        Stat::Valid => 3,
    }
}

/// Decodes a two-bit status field value.
pub fn stat_from_bits(b: u32) -> (s: Stat)
    requires
        b < 4,
    ensures
        stat_bits(s) == b,
{
    if b == 0 {
        Stat::Disabled
    } else if b == 1 {
        Stat::Stall
    } else if b == 2 {
        Stat::Nak
    } else {
        Stat::Valid
    }
}

pub open spec fn stat_rx_of(e: u32) -> u32 {
    (e >> 12) & 3
}

pub open spec fn stat_tx_of(e: u32) -> u32 {
    (e >> 4) & 3
}

pub open spec fn ctr_rx_set(e: u32) -> bool {
    e & EPR_CTR_RX_MASK != 0
}

pub open spec fn ctr_tx_set(e: u32) -> bool {
    e & EPR_CTR_TX_MASK != 0
}

pub open spec fn devaddr_of(e: u32) -> u32 {
    (e >> 16) & 0x7F
}

pub open spec fn ea_of(e: u32) -> u32 {
    e & EPR_EA_MASK
}

pub open spec fn ep_type_of(e: u32) -> u32 {
    (e >> 9) & 3
}

pub open spec fn setup_set(e: u32) -> bool {
    e & EPR_SETUP_MASK != 0
}

/// Reads the receive status field of a register value.
pub fn read_stat_rx(e: u32) -> (s: Stat)
    ensures
        stat_bits(s) == stat_rx_of(e),
{
    proof {
        lemma_field_bounds(e >> 12);
    }
    stat_from_bits((e >> 12) & 3)
}

/// Reads the transmit status field of a register value.
pub fn read_stat_tx(e: u32) -> (s: Stat)
    ensures
        stat_bits(s) == stat_tx_of(e),
{
    proof {
        lemma_field_bounds(e >> 4);
    }
    stat_from_bits((e >> 4) & 3)
}

/// Reads the device address field of a register value.
pub fn read_devaddr(e: u32) -> (r: u8)
    ensures
        r == devaddr_of(e),
        r < 128,
{
    proof {
        lemma_field_bounds(e);
    }
    ((e >> 16) & 0x7F) as u8
}

/// The register value that results from writing `w` while the register holds
/// `cur`: plain fields take the written value, toggle fields flip under the
/// written ones, and write-zero-to-clear flags survive only where both the
/// current and the written bit are one.
pub open spec fn apply_epr_write(cur: u32, w: u32) -> u32 {
    (w & !(EPR_TOGGLE_MASK | EPR_W0C_MASK)) | ((cur ^ w) & EPR_TOGGLE_MASK) | (cur & w
        & EPR_W0C_MASK)
}

pub open spec fn spec_canonicalize(e: u32) -> u32 {
    (e & !EPR_TOGGLE_MASK) | (EPR_CTR_RX_MASK | EPR_CTR_TX_MASK)
}

/// Maps a value read from the register to the base value whose write leaves
/// the register exactly as it was: toggle fields zeroed, complete flags held
/// at one, every plain field written back unchanged.
pub fn canonicalize(e: u32) -> (r: u32)
    ensures
        r == spec_canonicalize(e),
        apply_epr_write(e, r) == e,
{
    proof {
        lemma_canonicalize_no_effect(e);
    }
    (e & !EPR_TOGGLE_MASK) | (EPR_CTR_RX_MASK | EPR_CTR_TX_MASK)
}

/// Writing the canonical base value produces no effect at all.
pub proof fn lemma_canonicalize_no_effect(e: u32)
    by (bit_vector)
    ensures
        apply_epr_write(e, spec_canonicalize(e)) == e,
{
}

pub open spec fn spec_rx_arm_value(e: u32) -> u32 {
    (spec_canonicalize(e) & !EPR_STAT_RX_MASK) | (((!((e >> 12) & 3)) & 3) << 12)
}

/// The value whose write drives the receive status to `Valid` (arming the
/// channel) and changes nothing else: the toggle field is written with the
/// exact bits that flip the current status into `Valid`.
pub fn rx_arm_value(e: u32) -> (r: u32)
    ensures
        r == spec_rx_arm_value(e),
{
    let cur = (e >> 12) & 3;
    (canonicalize(e) & !EPR_STAT_RX_MASK) | (((!cur) & 3) << 12)
}

/// Arming the receive side sets its status to `Valid` and touches nothing
/// else.
pub proof fn lemma_rx_arm(e: u32)
    by (bit_vector)
    ensures
        apply_epr_write(e, spec_rx_arm_value(e)) == (e | EPR_STAT_RX_MASK),
        stat_rx_of(e | EPR_STAT_RX_MASK) == 3,
        stat_tx_of(e | EPR_STAT_RX_MASK) == stat_tx_of(e),
{
}

pub open spec fn spec_rx_stop_value(e: u32) -> u32 {
    spec_canonicalize(e) | (e & EPR_STAT_RX_MASK)
}

/// The value whose write drives the receive status back to `Disabled`: the
/// toggle field is written with its own current bits, so each set bit flips
/// itself off.
pub fn rx_stop_value(e: u32) -> (r: u32)
    ensures
        r == spec_rx_stop_value(e),
{
    canonicalize(e) | (e & EPR_STAT_RX_MASK)
}

/// Stopping the receive side forces its status to `Disabled` and touches
/// nothing else.
pub proof fn lemma_rx_stop(e: u32)
    by (bit_vector)
    ensures
        apply_epr_write(e, spec_rx_stop_value(e)) == (e & !EPR_STAT_RX_MASK),
        stat_rx_of(e & !EPR_STAT_RX_MASK) == 0,
        stat_tx_of(e & !EPR_STAT_RX_MASK) == stat_tx_of(e),
{
}

pub open spec fn spec_tx_arm_value(e: u32) -> u32 {
    (spec_canonicalize(e) & !EPR_STAT_TX_MASK) | (((!((e >> 4) & 3)) & 3) << 4)
}

/// The value whose write drives the transmit status to `Valid`, as
/// [`rx_arm_value`] does for the receive side.
pub fn tx_arm_value(e: u32) -> (r: u32)
    ensures
        r == spec_tx_arm_value(e),
{
    let cur = (e >> 4) & 3;
    (canonicalize(e) & !EPR_STAT_TX_MASK) | (((!cur) & 3) << 4)
}

/// Arming the transmit side sets its status to `Valid` and touches nothing
/// else.
pub proof fn lemma_tx_arm(e: u32)
    by (bit_vector)
    ensures
        apply_epr_write(e, spec_tx_arm_value(e)) == (e | EPR_STAT_TX_MASK),
        stat_tx_of(e | EPR_STAT_TX_MASK) == 3,
        stat_rx_of(e | EPR_STAT_TX_MASK) == stat_rx_of(e),
{
}

pub open spec fn spec_tx_stop_value(e: u32) -> u32 {
    spec_canonicalize(e) | (e & EPR_STAT_TX_MASK)
}

/// The value whose write drives the transmit status back to `Disabled`.
pub fn tx_stop_value(e: u32) -> (r: u32)
    ensures
        r == spec_tx_stop_value(e),
{
    canonicalize(e) | (e & EPR_STAT_TX_MASK)
}

/// Stopping the transmit side forces its status to `Disabled` and touches
/// nothing else.
pub proof fn lemma_tx_stop(e: u32)
    by (bit_vector)
    ensures
        apply_epr_write(e, spec_tx_stop_value(e)) == (e & !EPR_STAT_TX_MASK),
        stat_tx_of(e & !EPR_STAT_TX_MASK) == 0,
        stat_rx_of(e & !EPR_STAT_TX_MASK) == stat_rx_of(e),
{
}

pub open spec fn spec_claim_write_value(e: u32, index: u32, type_bits: u32, dev_addr: u32) -> u32 {
    (spec_canonicalize(e) & !(EPR_EA_MASK | EPR_EP_TYPE_MASK | EPR_DEVADDR_MASK)) | (index
        & 0xF) | ((type_bits & 3) << 9) | ((dev_addr & 0x7F) << 16)
}

/// The value whose write binds the register to a channel index, a transfer
/// type and a device address while leaving the status, toggle, complete and
/// error fields untouched.
pub fn claim_write_value(e: u32, index: u32, type_bits: u32, dev_addr: u32) -> (r: u32)
    ensures
        r == spec_claim_write_value(e, index, type_bits, dev_addr),
{
    (canonicalize(e) & !(EPR_EA_MASK | EPR_EP_TYPE_MASK | EPR_DEVADDR_MASK)) | (index & 0xF) | ((
    type_bits & 3) << 9) | ((dev_addr & 0x7F) << 16)
}

/// Binding a channel replaces exactly the address, type and device-address
/// fields.
pub proof fn lemma_claim_write(e: u32, index: u32, type_bits: u32, dev_addr: u32)
    by (bit_vector)
    ensures
        ({
            let r = apply_epr_write(e, spec_claim_write_value(e, index, type_bits, dev_addr));
            &&& ea_of(r) == index & 0xF
            &&& ep_type_of(r) == type_bits & 3
            &&& devaddr_of(r) == dev_addr & 0x7F
            &&& index < 16 ==> ea_of(r) == index
            &&& type_bits < 4 ==> ep_type_of(r) == type_bits
            &&& dev_addr < 128 ==> devaddr_of(r) == dev_addr
            &&& stat_rx_of(r) == stat_rx_of(e)
            &&& stat_tx_of(r) == stat_tx_of(e)
            &&& ctr_rx_set(r) == ctr_rx_set(e)
            &&& ctr_tx_set(r) == ctr_tx_set(e)
            &&& r & (EPR_DTOG_RX_MASK | EPR_DTOG_TX_MASK) == e & (EPR_DTOG_RX_MASK
                | EPR_DTOG_TX_MASK)
            &&& r & (EPR_ERR_RX_MASK | EPR_ERR_TX_MASK) == e & (EPR_ERR_RX_MASK | EPR_ERR_TX_MASK)
            &&& setup_set(r) == setup_set(e)
        }),
{
}

pub open spec fn spec_setup_value(e: u32) -> u32 {
    spec_canonicalize(e) | EPR_SETUP_MASK
}

/// The value whose write raises the setup-token bit for the setup stage of a
/// control transfer and touches nothing else.
pub fn setup_value(e: u32) -> (r: u32)
    ensures
        r == spec_setup_value(e),
        apply_epr_write(e, r) == (e | EPR_SETUP_MASK),
{
    proof {
        lemma_setup_value(e);
    }
    canonicalize(e) | EPR_SETUP_MASK
}

/// Raising the setup-token bit touches nothing else.
pub proof fn lemma_setup_value(e: u32)
    by (bit_vector)
    ensures
        apply_epr_write(e, spec_setup_value(e)) == (e | EPR_SETUP_MASK),
{
}

} // verus!
