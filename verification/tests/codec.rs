//! Tests of the value-level pieces: the receive-length code, the packet
//! codec, the descriptor table, and the register write-value helpers.

use usb_host::btable::{align_len_up, calc_receive_len_bits, read_out_len,
    write_receive_buffer_descriptor, write_transmit_buffer_descriptor};
use usb_host::buffer::EndpointBuffer;
use usb_host::epr::{canonicalize, rx_arm_value, rx_stop_value, tx_arm_value, tx_stop_value,
    read_stat_rx, read_stat_tx, read_devaddr, setup_value, stat_from_bits, Stat};
use usb_host::hw::{PacketMemory, Registers};
use usb_host::types::{convert_type, EndpointDescriptor, EndpointType, EpType, TransferOptions};

fn decode(bits: u16) -> u32 {
    if bits & 0x8000 == 0 {
        ((bits as u32) >> 10) * 2
    } else {
        ((((bits as u32) & 0x7FFF) >> 10) + 1) * 32
    }
}

#[test]
fn align_rounds_up_to_granularity() {
    assert_eq!(align_len_up(0), 0);
    assert_eq!(align_len_up(1), 4);
    assert_eq!(align_len_up(4), 4);
    assert_eq!(align_len_up(61), 64);
    assert_eq!(align_len_up(2048), 2048);
}

#[test]
fn receive_len_bits_small_lengths() {
    // Up to 60 bytes: two-byte blocks at bit 10.
    assert_eq!(calc_receive_len_bits(2), (4, 2 << 10));
    assert_eq!(calc_receive_len_bits(8), (8, 4 << 10));
    assert_eq!(calc_receive_len_bits(59), (60, 30 << 10));
    assert_eq!(calc_receive_len_bits(60), (60, 30 << 10));
}

#[test]
fn receive_len_bits_large_lengths() {
    // 61..=1024 bytes: 32-byte blocks, one less than the count, flag bit set.
    assert_eq!(calc_receive_len_bits(61), (64, (1 << 10) | 0x8000));
    assert_eq!(calc_receive_len_bits(64), (64, (1 << 10) | 0x8000));
    assert_eq!(calc_receive_len_bits(65), (96, (2 << 10) | 0x8000));
    assert_eq!(calc_receive_len_bits(1024), (1024, (31 << 10) | 0x8000));
}

#[test]
fn receive_len_code_decodes_within_bounds() {
    // The hardware's decode of the code equals the reserved size, which is
    // at least the requested length, at most 31 more, and re-encodes to the
    // same code.
    for len in 2..=1024u16 {
        let (actual, bits) = calc_receive_len_bits(len);
        let decoded = decode(bits);
        assert_eq!(decoded, actual as u32);
        assert!(decoded >= len as u32);
        assert!(decoded <= len as u32 + 31);
        assert_eq!(decoded % 4, 0);
        let (actual2, bits2) = calc_receive_len_bits(decoded as u16);
        assert_eq!((actual2, bits2), (actual, bits));
    }
}

#[test]
fn codec_roundtrip_with_padding() {
    let mut mem = PacketMemory::new();
    let buf = EndpointBuffer { addr: 64, len: 16 };
    let data: Vec<u8> = vec![0x11, 0x22, 0x33, 0x44, 0x55, 0x66, 0x77];
    buf.write(&mut mem, &data);
    // Little-endian packing, zero-padded final word.
    assert_eq!(mem.words[16], 0x4433_2211);
    assert_eq!(mem.words[17], 0x0077_6655);
    let back = buf.read(&mem, 7);
    assert_eq!(back, data);
    // The padding byte of the last word really is zero.
    let padded = buf.read(&mem, 8);
    assert_eq!(padded[7], 0);
}

#[test]
fn codec_empty_write_touches_nothing() {
    let mut mem = PacketMemory::new();
    mem.words[20] = 0xDEAD_BEEF;
    let buf = EndpointBuffer { addr: 80, len: 8 };
    buf.write(&mut mem, &Vec::new());
    assert_eq!(mem.words[20], 0xDEAD_BEEF);
    assert_eq!(buf.read(&mem, 0), Vec::<u8>::new());
}

#[test]
fn descriptor_halves_compose_and_read_back() {
    let mut mem = PacketMemory::new();
    write_receive_buffer_descriptor(&mut mem, 2, 128, 0x8400);
    assert_eq!(mem.words[5], 0x8400_0080);
    assert_eq!(read_out_len(&mem, 2), 0x8400);
    write_transmit_buffer_descriptor(&mut mem, 2, 192, 13);
    assert_eq!(mem.words[4], 0x000D_00C0);
}

#[test]
fn canonical_value_writes_without_effect() {
    let mut regs = Registers::new();
    let e = 0x0245_A2B5;
    regs.force_epr(4, e);
    let v = canonicalize(e);
    regs.write_epr(4, v);
    assert_eq!(regs.epr[4], e);
}

#[test]
fn arm_and_stop_reach_their_status_from_any_start() {
    for stat in 0..4u32 {
        let mut regs = Registers::new();
        let e = 0x0005_0601 | (stat << 12) | (stat << 4);
        regs.force_epr(2, e);
        regs.write_epr(2, rx_arm_value(e));
        let armed = regs.epr[2];
        assert_eq!((armed >> 12) & 3, 3, "receive status must be Valid");
        assert_eq!(armed & !0x3000, e & !0x3000, "everything else untouched");
        regs.write_epr(2, rx_stop_value(armed));
        let stopped = regs.epr[2];
        assert_eq!((stopped >> 12) & 3, 0, "receive status must be Disabled");
        assert_eq!(stopped & !0x3000, e & !0x3000);

        let mut regs = Registers::new();
        regs.force_epr(2, e);
        regs.write_epr(2, tx_arm_value(e));
        let armed = regs.epr[2];
        assert_eq!((armed >> 4) & 3, 3);
        assert_eq!(armed & !0x30, e & !0x30);
        regs.write_epr(2, tx_stop_value(armed));
        assert_eq!((regs.epr[2] >> 4) & 3, 0);
    }
}

#[test]
fn setup_value_raises_only_the_setup_bit() {
    let mut regs = Registers::new();
    let e = 0x0005_2621;
    regs.force_epr(0, e);
    regs.write_epr(0, setup_value(e));
    assert_eq!(regs.epr[0], e | 0x800);
}

#[test]
fn stat_fields_decode() {
    let e = (2 << 12) | (1 << 4);
    assert_eq!(read_stat_rx(e), Stat::Nak);
    assert_eq!(read_stat_tx(e), Stat::Stall);
    assert_eq!(stat_from_bits(0), Stat::Disabled);
    assert_eq!(stat_from_bits(3), Stat::Valid);
    assert_eq!(read_devaddr(0x0063_0000), 0x63);
}

#[test]
fn endpoint_descriptor_types_convert() {
    let desc = EndpointDescriptor {
        len: 7,
        descriptor_type: 5,
        endpoint_address: 0x81,
        attributes: 2,
        max_packet_size: 64,
        interval: 0,
    };
    assert_eq!(desc.ep_type(), EndpointType::Bulk);
    assert_eq!(convert_type(EndpointType::Bulk), EpType::Bulk);
    assert_eq!(convert_type(EndpointType::Control), EpType::Control);
    assert_eq!(convert_type(EndpointType::Isochronous), EpType::Iso);
    assert_eq!(convert_type(EndpointType::Interrupt), EpType::Interrupt);
}

#[test]
fn transfer_options_build() {
    let o = TransferOptions::default();
    assert_eq!(o.timeout_ms, None);
    let o = o.set_timeout_ms(30);
    assert_eq!(o.timeout_ms, Some(30));
}
