//! Tests of the claim lifecycle, the transfer engine's polls, and the
//! interrupt dispatcher, with the peripheral's side of the protocol played
//! by hand against the hardware-state models.

use usb_host::channel::{Channel, In};
use usb_host::driver::USBHostDriver;
use usb_host::hw::{PacketMemory, Registers};
use usb_host::irq::{ctr_service_value, USBHostInterruptHandler};
use usb_host::types::{ChannelError, ClaimError, EndpointDescriptor, EpType, ReadPoll,
    TransferOptions, WritePoll};

const CONNECTED: u32 = 0x2000_0000;

fn setup() -> (USBHostDriver, Registers, PacketMemory) {
    let mut regs = Registers::new();
    regs.force_istr(CONNECTED);
    (USBHostDriver::new(), regs, PacketMemory::new())
}

/// Plays the peripheral completing a receive transaction: the payload lands
/// in the channel's region, the received count in the descriptor's upper
/// half, and the receive status toggles back to Disabled.
fn deliver_in_packet(ch: &Channel<In>, regs: &mut Registers, mem: &mut PacketMemory, payload: &[u8]) {
    ch.buf.write(mem, &payload.to_vec());
    let slot = 2 * ch.index + 1;
    mem.words[slot] = (mem.words[slot] & 0xFFFF) | ((payload.len() as u32) << 16);
    let e = regs.epr[ch.index];
    regs.force_epr(ch.index, e & !0x3000);
}

#[test]
fn claim_twice_in_same_direction_is_rejected_until_reset() {
    let (mut drv, mut regs, mut mem) = setup();
    for index in 0..8usize {
        assert!(drv.claim_channel_in(&mut regs, &mut mem, index, 8, EpType::Bulk, 1).is_ok());
        assert_eq!(
            drv.claim_channel_in(&mut regs, &mut mem, index, 8, EpType::Bulk, 1).err(),
            Some(ClaimError::AlreadyInUse)
        );
        // The other direction is its own namespace.
        assert!(drv.claim_channel_out(&mut regs, &mut mem, index, 8, EpType::Bulk, 1).is_ok());
        assert_eq!(
            drv.claim_channel_out(&mut regs, &mut mem, index, 8, EpType::Bulk, 1).err(),
            Some(ClaimError::AlreadyInUse)
        );
    }
    drv.reset_alloc();
    for index in 0..8usize {
        assert!(drv.claim_channel_in(&mut regs, &mut mem, index, 8, EpType::Bulk, 1).is_ok());
        assert!(drv.claim_channel_out(&mut regs, &mut mem, index, 8, EpType::Bulk, 1).is_ok());
    }
}

#[test]
fn claim_programs_descriptor_register_and_allocator() {
    let (mut drv, mut regs, mut mem) = setup();
    let ch = drv
        .claim_channel_in(&mut regs, &mut mem, 1, 64, EpType::Interrupt, 5)
        .unwrap();
    assert_eq!(ch.index, 1);
    assert_eq!(ch.max_packet_size, 64);
    assert_eq!(ch.buf.addr, 64);
    assert_eq!(ch.buf.len, 64);
    assert_eq!(drv.ep_mem_free, 128);
    // Receive descriptor: region address low, length code high.
    assert_eq!(mem.words[3], ((1u32 << 10) | 0x8000) << 16 | 64);
    // Register bound to index 1, type Interrupt, device address 5; status,
    // toggle and complete flags untouched.
    assert_eq!(regs.epr[1], 1 | (3 << 9) | (5 << 16));
}

#[test]
fn claims_exhaust_packet_memory() {
    let (mut drv, mut regs, mut mem) = setup();
    // 2048 - 64 bytes are free; each claim takes 1024.
    assert!(drv.claim_channel_in(&mut regs, &mut mem, 1, 1024, EpType::Bulk, 1).is_ok());
    assert_eq!(
        drv.claim_channel_in(&mut regs, &mut mem, 2, 1024, EpType::Bulk, 1).err(),
        Some(ClaimError::OutOfMemory)
    );
    // A smaller region still fits.
    assert!(drv.claim_channel_in(&mut regs, &mut mem, 3, 512, EpType::Bulk, 1).is_ok());
    assert_eq!(
        drv.claim_channel_in(&mut regs, &mut mem, 4, 512, EpType::Bulk, 1).err(),
        Some(ClaimError::OutOfMemory)
    );
}

#[test]
fn alloc_channel_validates_the_descriptor_address() {
    let (mut drv, mut regs, mut mem) = setup();
    let mut desc = EndpointDescriptor {
        len: 7,
        descriptor_type: 5,
        endpoint_address: 0x00,
        attributes: 2,
        max_packet_size: 64,
        interval: 0,
    };
    // An Out address is not an In endpoint.
    assert_eq!(
        drv.alloc_channel_in(&mut regs, &mut mem, &desc).err(),
        Some(ClaimError::InvalidEndpoint)
    );
    // Channel zero is reserved for the control pair.
    desc.endpoint_address = 0x80;
    assert_eq!(
        drv.alloc_channel_in(&mut regs, &mut mem, &desc).err(),
        Some(ClaimError::InvalidEndpoint)
    );
    desc.endpoint_address = 0x88;
    assert_eq!(
        drv.alloc_channel_in(&mut regs, &mut mem, &desc).err(),
        Some(ClaimError::InvalidEndpoint)
    );
    desc.endpoint_address = 0x82;
    assert!(drv.alloc_channel_in(&mut regs, &mut mem, &desc).is_ok());

    desc.endpoint_address = 0;
    assert_eq!(
        drv.alloc_channel_out(&mut regs, &mut mem, &desc).err(),
        Some(ClaimError::InvalidEndpoint)
    );
    desc.endpoint_address = 2;
    assert!(drv.alloc_channel_out(&mut regs, &mut mem, &desc).is_ok());
}

#[test]
fn alloc_channel_in_binds_the_enumerated_device_address() {
    let (mut drv, mut regs, mut mem) = setup();
    drv.reconfigure_channel0(&mut regs, &mut mem, 8, 0x17).unwrap();
    let desc = EndpointDescriptor {
        len: 7,
        descriptor_type: 5,
        endpoint_address: 0x83,
        attributes: 3,
        max_packet_size: 16,
        interval: 10,
    };
    drv.alloc_channel_in(&mut regs, &mut mem, &desc).unwrap();
    assert_eq!((regs.epr[3] >> 16) & 0x7F, 0x17);
}

#[test]
fn reconfigure_channel0_claims_both_directions() {
    let (mut drv, mut regs, mut mem) = setup();
    assert_eq!(drv.reconfigure_channel0(&mut regs, &mut mem, 8, 0), Ok(()));
    assert_eq!(drv.control_channel_in.buf.addr, 64);
    assert_eq!(drv.control_channel_in.buf.len, 8);
    assert_eq!(drv.control_channel_out.buf.addr, 72);
    assert_eq!(drv.control_channel_out.buf.len, 8);
    assert_eq!(drv.ep_mem_free, 80);
    // Channel zero is claimed in both directions now.
    assert_eq!(
        drv.claim_channel_in(&mut regs, &mut mem, 0, 8, EpType::Control, 0).err(),
        Some(ClaimError::AlreadyInUse)
    );
    assert_eq!(
        drv.claim_channel_out(&mut regs, &mut mem, 0, 8, EpType::Control, 0).err(),
        Some(ClaimError::AlreadyInUse)
    );
    // Control register of channel zero carries type Control.
    assert_eq!((regs.epr[0] >> 9) & 3, 1);
    // Both directions of maximum size cannot share the memory.
    drv.reset_alloc();
    assert_eq!(
        drv.reconfigure_channel0(&mut regs, &mut mem, 1024, 0).err(),
        Some(ClaimError::OutOfMemory)
    );
}

#[test]
fn read_accumulates_three_packets_and_stops_at_the_short_one() {
    let (mut drv, mut regs, mut mem) = setup();
    let ch = drv
        .claim_channel_in(&mut regs, &mut mem, 1, 64, EpType::Bulk, 1)
        .unwrap();
    let opts = TransferOptions::default();
    let mut dest: Vec<u8> = Vec::new();
    let limit = 200usize;

    ch.activate(&mut regs);
    assert_eq!((regs.epr[1] >> 12) & 3, 3, "armed");

    let p1: Vec<u8> = (0..64u8).collect();
    let p2: Vec<u8> = (64..128u8).collect();
    let p3: Vec<u8> = (128..148u8).collect();

    deliver_in_packet(&ch, &mut regs, &mut mem, &p1);
    assert_eq!(ch.poll_read(&mut regs, &mem, &mut dest, limit, 1, &opts), ReadPoll::Pending);
    assert_eq!(dest.len(), 64);
    assert_eq!((regs.epr[1] >> 12) & 3, 3, "re-armed after a full packet");

    deliver_in_packet(&ch, &mut regs, &mut mem, &p2);
    assert_eq!(ch.poll_read(&mut regs, &mem, &mut dest, limit, 2, &opts), ReadPoll::Pending);
    assert_eq!(dest.len(), 128);
    assert_eq!((regs.epr[1] >> 12) & 3, 3, "re-armed again");

    deliver_in_packet(&ch, &mut regs, &mut mem, &p3);
    assert_eq!(
        ch.poll_read(&mut regs, &mem, &mut dest, limit, 3, &opts),
        ReadPoll::Complete(148)
    );
    let expected: Vec<u8> = (0..148u8).collect();
    assert_eq!(dest, expected);
    assert_eq!((regs.epr[1] >> 12) & 3, 0, "no re-arm after the short packet");
}

#[test]
fn read_waits_through_nak_and_valid() {
    let (mut drv, mut regs, mut mem) = setup();
    let ch = drv
        .claim_channel_in(&mut regs, &mut mem, 2, 32, EpType::Bulk, 1)
        .unwrap();
    let opts = TransferOptions::default();
    let mut dest: Vec<u8> = Vec::new();
    ch.activate(&mut regs);
    // Valid: the hardware has not attempted the transaction yet.
    assert_eq!(ch.poll_read(&mut regs, &mem, &mut dest, 32, 1, &opts), ReadPoll::Pending);
    // Nak: the device was not ready; the hardware retries on its own.
    let e = regs.epr[2];
    regs.force_epr(2, (e & !0x3000) | 0x2000);
    assert_eq!(ch.poll_read(&mut regs, &mem, &mut dest, 32, 2, &opts), ReadPoll::Pending);
    assert!(dest.is_empty());
}

#[test]
fn read_reports_stall_immediately() {
    let (mut drv, mut regs, mut mem) = setup();
    let ch = drv
        .claim_channel_in(&mut regs, &mut mem, 2, 32, EpType::Bulk, 1)
        .unwrap();
    ch.activate(&mut regs);
    let e = regs.epr[2];
    regs.force_epr(2, (e & !0x3000) | 0x1000);
    let mut dest: Vec<u8> = Vec::new();
    assert_eq!(
        ch.poll_read(&mut regs, &mem, &mut dest, 32, 1, &TransferOptions::default()),
        ReadPoll::Failed(ChannelError::Stall)
    );
}

#[test]
fn read_rejects_a_packet_longer_than_the_remaining_buffer() {
    let (mut drv, mut regs, mut mem) = setup();
    let ch = drv
        .claim_channel_in(&mut regs, &mut mem, 1, 64, EpType::Bulk, 1)
        .unwrap();
    ch.activate(&mut regs);
    let payload: Vec<u8> = (0..64u8).collect();
    deliver_in_packet(&ch, &mut regs, &mut mem, &payload);
    let mut dest: Vec<u8> = Vec::new();
    // Only 10 bytes of room for a 64-byte packet.
    assert_eq!(
        ch.poll_read(&mut regs, &mem, &mut dest, 10, 1, &TransferOptions::default()),
        ReadPoll::Failed(ChannelError::BufferOverflow)
    );
    assert!(dest.is_empty());
}

#[test]
fn disconnect_fails_the_read_and_disables_the_channel() {
    let (mut drv, mut regs, mut mem) = setup();
    let ch = drv
        .claim_channel_in(&mut regs, &mut mem, 1, 64, EpType::Bulk, 1)
        .unwrap();
    ch.activate(&mut regs);
    // A Nak history does not matter: the disconnect check comes first.
    let e = regs.epr[1];
    regs.force_epr(1, (e & !0x3000) | 0x2000);
    regs.force_istr(0);
    let mut dest: Vec<u8> = Vec::new();
    assert_eq!(
        ch.poll_read(&mut regs, &mem, &mut dest, 64, 1, &TransferOptions::default()),
        ReadPoll::Failed(ChannelError::Disconnected)
    );
    assert_eq!((regs.epr[1] >> 12) & 3, 0, "receive status forced to Disabled");
}

#[test]
fn disconnect_fails_the_write_and_disables_the_channel() {
    let (mut drv, mut regs, mut mem) = setup();
    let ch = drv
        .claim_channel_out(&mut regs, &mut mem, 1, 64, EpType::Bulk, 1)
        .unwrap();
    ch.write_data(&mut mem, &vec![1, 2, 3]).unwrap();
    ch.activate(&mut regs);
    regs.force_istr(0);
    assert_eq!(
        ch.poll_write(&mut regs, 1, &TransferOptions::default()),
        WritePoll::Failed(ChannelError::Disconnected)
    );
    assert_eq!((regs.epr[1] >> 4) & 3, 0, "transmit status forced to Disabled");
}

#[test]
fn write_times_out_under_endless_nak() {
    let (mut drv, mut regs, mut mem) = setup();
    let ch = drv
        .claim_channel_out(&mut regs, &mut mem, 1, 64, EpType::Bulk, 1)
        .unwrap();
    let opts = TransferOptions::default().set_timeout_ms(30);
    ch.write_data(&mut mem, &vec![9; 16]).unwrap();
    ch.activate(&mut regs);
    // The device answers Nak for the whole window.
    let e = regs.epr[1];
    regs.force_epr(1, (e & !0x30) | 0x20);
    assert_eq!(ch.poll_write(&mut regs, 10, &opts), WritePoll::Pending);
    assert_eq!(ch.poll_write(&mut regs, 30, &opts), WritePoll::Pending);
    assert_eq!(ch.poll_write(&mut regs, 31, &opts), WritePoll::Failed(ChannelError::Timeout));
    assert_eq!((regs.epr[1] >> 4) & 3, 0, "transmit status forced to Disabled");
}

#[test]
fn read_times_out_and_disables_the_channel() {
    let (mut drv, mut regs, mut mem) = setup();
    let ch = drv
        .claim_channel_in(&mut regs, &mut mem, 1, 64, EpType::Bulk, 1)
        .unwrap();
    let opts = TransferOptions::default().set_timeout_ms(30);
    ch.activate(&mut regs);
    let mut dest: Vec<u8> = Vec::new();
    assert_eq!(ch.poll_read(&mut regs, &mem, &mut dest, 64, 30, &opts), ReadPoll::Pending);
    assert_eq!(
        ch.poll_read(&mut regs, &mem, &mut dest, 64, 31, &opts),
        ReadPoll::Failed(ChannelError::Timeout)
    );
    assert_eq!((regs.epr[1] >> 12) & 3, 0, "receive status forced to Disabled");
}

#[test]
fn write_completes_on_disabled_and_fails_on_stall() {
    let (mut drv, mut regs, mut mem) = setup();
    let ch = drv
        .claim_channel_out(&mut regs, &mut mem, 1, 64, EpType::Bulk, 1)
        .unwrap();
    ch.write_data(&mut mem, &vec![7; 8]).unwrap();
    ch.activate(&mut regs);
    let opts = TransferOptions::default();
    let armed = regs.epr[1];
    regs.force_epr(1, (armed & !0x30) | 0x10);
    assert_eq!(ch.poll_write(&mut regs, 1, &opts), WritePoll::Failed(ChannelError::Stall));
    regs.force_epr(1, armed & !0x30);
    assert_eq!(ch.poll_write(&mut regs, 2, &opts), WritePoll::Complete);
}

#[test]
fn oversized_write_is_rejected_before_any_state_is_touched() {
    let (mut drv, mut regs, mut mem) = setup();
    let ch = drv
        .claim_channel_out(&mut regs, &mut mem, 1, 64, EpType::Bulk, 1)
        .unwrap();
    let mem_before = mem.words.clone();
    let regs_before = (regs.istr, regs.epr.clone());
    // The Out region is 64 bytes; 65 do not fit.
    assert_eq!(
        ch.write_data(&mut mem, &vec![0xAB; 65]),
        Err(ChannelError::BufferOverflow)
    );
    assert_eq!(mem.words, mem_before, "no packet memory was touched");
    assert_eq!((regs.istr, regs.epr.clone()), regs_before, "no register was touched");
}

#[test]
fn write_data_fills_region_and_transmit_descriptor() {
    let (mut drv, mut regs, mut mem) = setup();
    let ch = drv
        .claim_channel_out(&mut regs, &mut mem, 3, 64, EpType::Bulk, 1)
        .unwrap();
    ch.write_data(&mut mem, &vec![0xAA, 0xBB, 0xCC]).unwrap();
    assert_eq!(mem.words[2 * 3], ((3u32) << 16) | ch.buf.addr as u32);
    assert_eq!(mem.words[ch.buf.addr as usize / 4], 0x00CC_BBAA);
}

#[test]
fn dispatcher_wakes_both_directions_from_one_invocation() {
    let mut regs = Registers::new();
    // Both complete flags of channel 3 are asserted, statuses Nak, plus an
    // error flag the dispatcher must clear as diagnostic state.
    let e = 5 | 0x20 | 0x80 | 0x2000 | 0x8000 | 0x0200_0000;
    regs.force_epr(3, e);
    regs.force_istr(CONNECTED | 0x8000 | 3);
    // The write value clears exactly the two asserted complete flags and
    // toggles nothing.
    let v = ctr_service_value(e);
    assert_eq!(v & 0x8080, 0, "a zero lands on each asserted complete flag");
    assert_eq!(v & 0x7070, 0, "no toggle bit is written");
    let w = USBHostInterruptHandler::on_interrupt(&mut regs);
    assert!(!w.bus);
    assert_eq!(w.wake_in, Some(3));
    assert_eq!(w.wake_out, Some(3));
    let after = regs.epr[3];
    assert_eq!(after & 0x8080, 0, "complete flags cleared");
    assert_eq!(after & 0x0600_0000, 0, "error flags cleared");
    assert_eq!(after & 0x3030, e & 0x3030, "statuses untouched");
    assert_eq!(after & 0xF, 5, "address field untouched");
}

#[test]
fn dispatcher_wakes_one_direction_when_one_flag_fired() {
    let mut regs = Registers::new();
    let e = 1 | 0x8000;
    regs.force_epr(1, e);
    regs.force_istr(CONNECTED | 0x8000 | 1);
    let v = ctr_service_value(e);
    assert_ne!(v & 0x80, 0, "the unasserted transmit flag is written one");
    let w = USBHostInterruptHandler::on_interrupt(&mut regs);
    assert_eq!(w.wake_in, Some(1));
    assert_eq!(w.wake_out, None);
}

#[test]
fn dispatcher_clears_reset_flag_and_wakes_the_bus_waiter() {
    let mut regs = Registers::new();
    regs.force_istr(CONNECTED | 0x400 | 0x800);
    let w = USBHostInterruptHandler::on_interrupt(&mut regs);
    assert!(w.bus);
    assert_eq!(w.wake_in, None);
    assert_eq!(w.wake_out, None);
    assert_eq!(regs.istr & 0x400, 0, "reset flag cleared");
    assert_ne!(regs.istr & 0x800, 0, "other event flags left alone");
}

#[test]
fn dispatcher_error_forces_the_channel_statuses_off() {
    let mut regs = Registers::new();
    let e = 2 | 0x3000 | 0x30;
    regs.force_epr(2, e);
    regs.force_istr(CONNECTED | 0x2000 | 2);
    let w = USBHostInterruptHandler::on_interrupt(&mut regs);
    assert!(!w.bus);
    assert_eq!(regs.istr & 0x2000, 0, "error flag cleared");
    assert_eq!(regs.epr[2] & 0x3030, 0, "both statuses toggled to Disabled");
    assert_eq!(regs.epr[2] & 0xF, 2);
}

#[test]
fn dispatcher_acknowledges_unrecognized_interrupts() {
    let mut regs = Registers::new();
    regs.force_istr(CONNECTED | 0x0800 | 0x0100);
    let w = USBHostInterruptHandler::on_interrupt(&mut regs);
    assert!(!w.bus);
    assert_eq!(regs.istr & 0x7F80, 0, "every event flag acknowledged");
    assert_ne!(regs.istr & CONNECTED, 0, "connection status is read-only");
}

#[test]
fn get_status_reads_the_interrupt_register() {
    let (drv, mut regs, _mem) = setup();
    regs.force_istr(0x1234_5678);
    assert_eq!(drv.get_status(&regs), 0x1234_5678);
}
