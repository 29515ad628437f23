//! The interrupt dispatcher: one entry point that, in a single invocation,
//! services every pending condition class so that no event is lost when two
//! arrive together, and reports exactly which waiters to wake.
//!
//! The dispatcher never wakes anyone itself (it may run in interrupt
//! context); it returns a [`WakeSet`] and the caller signals the named
//! waiters. All register writes are built on the canonical no-effect base
//! value, so each one clears exactly the flags that were seen asserted and
//! toggles nothing.

use vstd::prelude::*;
use crate::hw::{Registers, ISTR_RESET_MASK, ISTR_ERR_MASK, ISTR_CTR_MASK, ISTR_EP_ID_MASK,
    ISTR_W0C_MASK, apply_istr_write, EP_COUNT};
use crate::epr::{apply_epr_write, spec_canonicalize, canonicalize, EPR_CTR_RX_MASK,
    EPR_CTR_TX_MASK, EPR_ERR_RX_MASK, EPR_ERR_TX_MASK, EPR_STAT_RX_MASK, EPR_STAT_TX_MASK,
    EPR_TOGGLE_MASK, ctr_rx_set, ctr_tx_set, stat_rx_of, stat_tx_of};

verus! {

/// The waiters a dispatcher invocation asks its caller to wake.
#[derive(Clone, Copy, PartialEq, Eq, Debug)]
pub struct WakeSet {
    /// Wake the bus waiter: the connection state changed.
    pub bus: bool,
    /// Wake the In waiter of this channel: its receive transaction
    /// completed.
    pub wake_in: Option<usize>,
    /// Wake the Out waiter of this channel: its transmit transaction
    /// completed.
    pub wake_out: Option<usize>,
}

pub open spec fn spec_ctr_service_value(e: u32) -> u32 {
    (spec_canonicalize(e) & !(EPR_ERR_RX_MASK | EPR_ERR_TX_MASK | EPR_CTR_RX_MASK
        | EPR_CTR_TX_MASK)) | ((!e) & (EPR_CTR_RX_MASK | EPR_CTR_TX_MASK))
}

/// The value written to a channel register to service a completed
/// transaction: the canonical base with the error flags written zero
/// (clearing any that were seen asserted) and each complete flag written
/// with its own complement, so that a zero lands exactly on the flags that
/// were asserted.
pub fn ctr_service_value(e: u32) -> (r: u32)
    ensures
        r == spec_ctr_service_value(e),
{
    (canonicalize(e) & !(EPR_ERR_RX_MASK | EPR_ERR_TX_MASK | EPR_CTR_RX_MASK | EPR_CTR_TX_MASK))
        | ((!e) & (EPR_CTR_RX_MASK | EPR_CTR_TX_MASK))
}

/// Servicing a completed transaction clears the complete and error flags
/// and touches nothing else, and the written value itself carries a zero
/// exactly at each complete flag that was asserted and no toggle bits at
/// all.
pub proof fn lemma_ctr_service(e: u32)
    by (bit_vector)
    ensures
        apply_epr_write(e, spec_ctr_service_value(e)) == e & !(EPR_CTR_RX_MASK | EPR_CTR_TX_MASK
            | EPR_ERR_RX_MASK | EPR_ERR_TX_MASK),
        (spec_ctr_service_value(e) & EPR_CTR_RX_MASK == 0) <==> ctr_rx_set(e),
        (spec_ctr_service_value(e) & EPR_CTR_TX_MASK == 0) <==> ctr_tx_set(e),
        spec_ctr_service_value(e) & EPR_TOGGLE_MASK == 0,
        stat_rx_of(apply_epr_write(e, spec_ctr_service_value(e))) == stat_rx_of(e),
        stat_tx_of(apply_epr_write(e, spec_ctr_service_value(e))) == stat_tx_of(e),
{
}

pub open spec fn spec_err_service_value(e: u32) -> u32 {
    spec_canonicalize(e) | (e & (EPR_STAT_RX_MASK | EPR_STAT_TX_MASK))
}

/// The value written to a channel register after a transaction error: the
/// canonical base with both status fields written as their own current
/// bits, which toggles each of them back to `Disabled`.
pub fn err_service_value(e: u32) -> (r: u32)
    ensures
        r == spec_err_service_value(e),
{
    canonicalize(e) | (e & (EPR_STAT_RX_MASK | EPR_STAT_TX_MASK))
}

/// Servicing a transaction error forces both status fields to `Disabled`
/// and touches nothing else.
pub proof fn lemma_err_service(e: u32)
    by (bit_vector)
    ensures
        apply_epr_write(e, spec_err_service_value(e)) == e & !(EPR_STAT_RX_MASK
            | EPR_STAT_TX_MASK),
        stat_rx_of(e & !(EPR_STAT_RX_MASK | EPR_STAT_TX_MASK)) == 0,
        stat_tx_of(e & !(EPR_STAT_RX_MASK | EPR_STAT_TX_MASK)) == 0,
{
}

/// The interrupt status writes the dispatcher performs: writing all ones
/// but one flag clears exactly that flag, writing all ones clears nothing,
/// and writing zero clears every event flag.
pub proof fn lemma_istr_writes(c: u32)
    by (bit_vector)
    ensures
        apply_istr_write(c, !ISTR_RESET_MASK) == c & !ISTR_RESET_MASK,
        apply_istr_write(c, !ISTR_ERR_MASK) == c & !ISTR_ERR_MASK,
        apply_istr_write(c, !0u32) == c,
        apply_istr_write(c, 0u32) == c & !ISTR_W0C_MASK,
{
}

/// The single interrupt entry point.
pub struct USBHostInterruptHandler {}

impl USBHostInterruptHandler {
    /// Services one controller interrupt against the observed interrupt
    /// status:
    ///
    /// - a connection change clears exactly the reset flag and asks for the
    ///   bus waiter;
    /// - a completed transaction services the named channel's register
    ///   (clearing its complete and error flags, nothing else) and asks for
    ///   the channel's In and/or Out waiter according to which complete
    ///   flags were asserted — both in this one invocation when both fired;
    /// - a transaction error acknowledges the error flag and forces the
    ///   named channel's status fields back to `Disabled`;
    /// - when no known condition is pending, every event flag is
    ///   acknowledged so the interrupt cannot storm.
    ///
    /// The channel index the controller reports is always one of its own
    /// channels; the precondition records that.
    pub fn on_interrupt(regs: &mut Registers) -> (w: WakeSet)
        requires
            old(regs).wf(),
            old(regs).istr & ISTR_EP_ID_MASK < EP_COUNT,
        ensures
            final(regs).wf(),
            ({
                let i0 = old(regs).istr;
                let reset = i0 & ISTR_RESET_MASK != 0;
                let ctr = i0 & ISTR_CTR_MASK != 0;
                let err = i0 & ISTR_ERR_MASK != 0;
                let idx = (i0 & ISTR_EP_ID_MASK) as int;
                let e0 = old(regs).epr@[idx];
                let e1 = if ctr {
                    e0 & !(EPR_CTR_RX_MASK | EPR_CTR_TX_MASK | EPR_ERR_RX_MASK | EPR_ERR_TX_MASK)
                } else {
                    e0
                };
                let e2 = if err {
                    e1 & !(EPR_STAT_RX_MASK | EPR_STAT_TX_MASK)
                } else {
                    e1
                };
                let i1 = if reset {
                    i0 & !ISTR_RESET_MASK
                } else {
                    i0
                };
                let i2 = if err {
                    i1 & !ISTR_ERR_MASK
                } else {
                    i1
                };
                &&& w.bus == reset
                &&& w.wake_in == (if ctr && ctr_rx_set(e0) {
                    Some((i0 & ISTR_EP_ID_MASK) as usize)
                } else {
                    Option::<usize>::None
                })
                &&& w.wake_out == (if ctr && ctr_tx_set(e0) {
                    Some((i0 & ISTR_EP_ID_MASK) as usize)
                } else {
                    Option::<usize>::None
                })
                &&& (ctr || err) ==> final(regs).epr@ == old(regs).epr@.update(idx, e2)
                &&& !(ctr || err) ==> final(regs).epr@ == old(regs).epr@
                &&& final(regs).istr == (if !(reset || ctr || err) {
                    i0 & !ISTR_W0C_MASK
                } else {
                    i2
                })
            }),
    {
        let istr = regs.read_istr();
        let mut int_cleared = false;
        let mut bus = false;
        let mut wake_in: Option<usize> = None;
        let mut wake_out: Option<usize> = None;

        // A connection change: clear exactly the reset flag (every other
        // event flag is written one, which leaves it), then wake the bus
        // waiter.
        if istr & ISTR_RESET_MASK != 0 {
            proof {
                lemma_istr_writes(istr);
            }
            regs.write_istr(!ISTR_RESET_MASK);
            bus = true;
            int_cleared = true;
        }

        // A completed transaction on the channel the controller names.
        if istr & ISTR_CTR_MASK != 0 {
            let index = (istr & ISTR_EP_ID_MASK) as usize;
            let e = regs.read_epr(index);
            let v = ctr_service_value(e);
            proof {
                lemma_ctr_service(e);
            }
            regs.write_epr(index, v);
            if e & EPR_CTR_RX_MASK != 0 {
                wake_in = Some(index);
            }
            if e & EPR_CTR_TX_MASK != 0 {
                wake_out = Some(index);
            }
            int_cleared = true;
        }

        // A transaction error: acknowledge it and force the channel's
        // status fields back to Disabled. The error is logged state, not a
        // transfer failure; the engine's status inspection stays
        // authoritative.
        if istr & ISTR_ERR_MASK != 0 {
            let ghost c1 = regs.istr;
            proof {
                lemma_istr_writes(c1);
            }
            regs.write_istr(!0);
            let ghost c2 = regs.istr;
            proof {
                lemma_istr_writes(c2);
            }
            regs.write_istr(!ISTR_ERR_MASK);
            let index = (istr & ISTR_EP_ID_MASK) as usize;
            let e = regs.read_epr(index);
            let v = err_service_value(e);
            proof {
                lemma_err_service(e);
            }
            regs.write_epr(index, v);
            int_cleared = true;
        }

        // Nothing recognized: acknowledge every event flag anyway, so an
        // unhandled condition cannot re-raise the interrupt forever.
        if !int_cleared {
            let ghost c3 = regs.istr;
            proof {
                lemma_istr_writes(c3);
            }
            regs.write_istr(0);
        }
        WakeSet { bus, wake_in, wake_out }
    }
}

} // verus!
