use kinetis_usb::freescale::{
    ack_interrupts, bdt_status, irq_status, resume_after_token, token_status, FreescaleUsb,
    UsbInt,
};
use kinetis_usb::regs::RegOp;
use kinetis_usb::stream::StreamHandler;
use kinetis_usb::usb::{EndpointType, UsbPeripheral};

const BDT: u32 = 0x1FFF_8000;

fn reset_ops(max_ep: u32) -> Vec<RegOp> {
    vec![
        RegOp::Set8 { addr: 0x4007_2094, mask: 0x22 },
        RegOp::Write8 { addr: 0x4007_2080, value: 0xFF },
        RegOp::Write8 { addr: 0x4007_2088, value: 0xFF },
        RegOp::Write8 { addr: 0x4007_2010, value: 0xFF },
        RegOp::Zero { addr: BDT, len: max_ep * 32 },
        RegOp::Write8 { addr: 0x4007_2098, value: 0 },
        RegOp::Write8 { addr: 0x4007_2094, value: 0x01 },
    ]
}

#[test]
fn bdt_offsets() {
    assert_eq!(FreescaleUsb::get_bdt_offset(0, false, false), 0);
    assert_eq!(FreescaleUsb::get_bdt_offset(0, false, true), 8);
    assert_eq!(FreescaleUsb::get_bdt_offset(0, true, false), 16);
    assert_eq!(FreescaleUsb::get_bdt_offset(1, true, true), 56);
    assert_eq!(FreescaleUsb::get_bdt_offset(15, true, true), 504);
}

#[test]
fn bdt_entries_do_not_overlap() {
    let mut offsets = Vec::new();
    for ep in 0..16usize {
        for tx in [false, true] {
            for odd in [false, true] {
                offsets.push(FreescaleUsb::get_bdt_offset(ep, tx, odd));
            }
        }
    }
    offsets.sort();
    for w in offsets.windows(2) {
        assert!(w[0] + 8 <= w[1]);
    }
    assert!(offsets[offsets.len() - 1] + 8 <= 512);
}

#[test]
fn bdt_entry_addresses() {
    let f = FreescaleUsb::new(4, BDT);
    assert_eq!(f.bdt_entry_addr(2, false, true), BDT + 72);
    assert_eq!(f.set_bdt_setting(2, false, true, 7), RegOp::Write32 { addr: BDT + 72, value: 7 });
    assert_eq!(f.set_bdt_address(2, false, true, 9), RegOp::Write32 { addr: BDT + 76, value: 9 });
}

#[test]
fn init_program() {
    let f = FreescaleUsb::new(4, BDT);
    let mut expected = vec![
        RegOp::Set32 { addr: 0x4004_8034, mask: 1 << 18 },
        RegOp::Set32 { addr: 0x4004_8004, mask: 1 << 18 },
        RegOp::Write8 { addr: 0x4007_210C, value: 0x80 },
        RegOp::WaitFor8 { addr: 0x4007_210C, mask: 0x80, value: 0x00 },
        RegOp::Write8 { addr: 0x4007_209C, value: 0x80 },
        RegOp::Write8 { addr: 0x4007_20B0, value: 0xFF },
        RegOp::Write8 { addr: 0x4007_20B4, value: 0x1F },
        RegOp::Write8 { addr: 0x4007_2100, value: 0 },
    ];
    expected.extend(reset_ops(4));
    expected.push(RegOp::Write8 { addr: 0x4007_2084, value: 0x89 });
    assert_eq!(f.init(), expected);
}

#[test]
fn reset_and_attach_programs() {
    let f = FreescaleUsb::new(16, BDT);
    assert_eq!(f.reset(), reset_ops(16));
    assert_eq!(f.attach(), vec![RegOp::Set8 { addr: 0x4007_2108, mask: 0x10 }]);
    assert_eq!(f.set_address(0x2A), vec![RegOp::Write8 { addr: 0x4007_2098, value: 0x2A }]);
    assert_eq!(f.max_endpoints(), 16);
    assert_eq!(f.ep_stall(1), vec![RegOp::Set8 { addr: 0x4007_20C4, mask: 0x02 }]);
    assert_eq!(f.ep_unstall(1), vec![RegOp::Clear8 { addr: 0x4007_20C4, mask: 0x02 }]);
    assert!(f.ep_stall(16).is_empty());
    assert!(f.ep_unstall(16).is_empty());
}

#[test]
fn endpoint_enable_values() {
    let f = FreescaleUsb::new(4, BDT);
    let table = [
        (EndpointType::Control, 0x0D),
        (EndpointType::TxOnly, 0x15),
        (EndpointType::RxOnly, 0x19),
        (EndpointType::TxRx, 0x1D),
        (EndpointType::IsochronousTx, 0x14),
        (EndpointType::IsochronousRx, 0x18),
    ];
    for (typ, value) in table {
        assert_eq!(f.ep_enable(3, typ), vec![RegOp::Write8 { addr: 0x4007_20CC, value }]);
        assert_eq!(value & 0x02, 0);
    }
    assert_eq!(
        f.ep_enable(0, EndpointType::Control),
        vec![RegOp::Write8 { addr: 0x4007_20C0, value: 0x0D }]
    );
}

#[test]
fn queue_next_alternates_entries() {
    let mut f = FreescaleUsb::new(4, BDT);
    let mut s = StreamHandler::new(64);
    s.setup(0x2000_0100, 64, false);
    assert!(!f.next_odd(0, false));
    let ops = f.queue_next(0, false, &s);
    assert_eq!(
        ops,
        vec![
            RegOp::HaltIfSet32 { addr: BDT, mask: 0x80 },
            RegOp::Write32 { addr: BDT + 4, value: 0x2000_0100 },
            RegOp::Write32 { addr: BDT, value: 0x0040_0088 },
        ]
    );
    assert!(f.next_odd(0, false));
    assert!(!f.next_odd(0, true));
    let ops = f.queue_next(0, false, &s);
    assert_eq!(ops[0], RegOp::HaltIfSet32 { addr: BDT + 8, mask: 0x80 });
    assert_eq!(ops[2], RegOp::Write32 { addr: BDT + 8, value: 0x0040_0088 });
    assert!(!f.next_odd(0, false));
}

#[test]
fn queue_next_encodes_length_and_toggle() {
    let mut f = FreescaleUsb::new(4, BDT);
    let mut s = StreamHandler::new(8);
    s.setup(0x2000_0300, 20, true);
    let ops = f.queue_next(1, true, &s);
    assert_eq!(ops[1], RegOp::Write32 { addr: BDT + 52, value: 0x2000_0300 });
    assert_eq!(ops[2], RegOp::Write32 { addr: BDT + 48, value: 0x0008_00C8 });
    let word = 0x0008_00C8u32;
    assert_eq!(bdt_status(word).len, 8);
    assert_eq!((word >> 6) & 1, 1);
    assert_ne!(word & 0x80, 0);
}

#[test]
fn interrupt_status_decoding() {
    let all = irq_status(0x89);
    assert!(all.reset && all.stall && all.token_done);
    let tok = irq_status(0x08);
    assert!(!tok.reset && !tok.stall && tok.token_done);
    let none = irq_status(0x76);
    assert!(!none.reset && !none.stall && !none.token_done);
    assert_eq!(
        UsbInt::STALLEN.bits() | UsbInt::TOKDNEEN.bits() | UsbInt::USBRSTEN.bits(),
        0x89
    );
    assert_eq!(UsbInt::SLEEPEN.bits(), 0x10);
}

#[test]
fn token_status_names_the_entry() {
    let t = token_status(0x3C);
    assert_eq!(t.ep, 3);
    assert!(t.is_tx);
    assert!(t.is_odd);
    assert_eq!(FreescaleUsb::get_bdt_offset(t.ep, t.is_tx, t.is_odd), 8 * (0x3C >> 2));
    for stat in 0..=255u8 {
        let t = token_status(stat);
        assert!(t.ep < 16);
        assert_eq!(
            FreescaleUsb::get_bdt_offset(t.ep, t.is_tx, t.is_odd),
            8 * ((stat >> 2) as usize)
        );
    }
}

#[test]
fn bdt_status_fields() {
    let b = bdt_status(0x0040_0034);
    assert_eq!(b.pid, 0x0D);
    assert_eq!(b.len, 64);
    let c = bdt_status(0xFFFF_FFFF);
    assert_eq!(c.pid, 0x0F);
    assert_eq!(c.len, 0x3FF);
}

#[test]
fn resume_only_after_setup() {
    assert_eq!(resume_after_token(0x0D), vec![RegOp::Write8 { addr: 0x4007_2094, value: 0x01 }]);
    assert!(resume_after_token(0x09).is_empty());
    assert!(resume_after_token(0x01).is_empty());
    assert_eq!(ack_interrupts(0x89), RegOp::Write8 { addr: 0x4007_2080, value: 0x89 });
}

#[test]
fn bdt_pages_hold_the_table_address() {
    for bdt in [0x1FFF_8000u32, 0x2000_0200, 0x0000_0000, 0xFFFF_FC00] {
        let f = FreescaleUsb::new(4, bdt);
        let ops = f.init();
        let page = |i: usize| match ops[i] {
            RegOp::Write8 { value, .. } => value as u32,
            _ => panic!("a page register is written with a byte store"),
        };
        assert_eq!((page(6) << 24) | (page(5) << 16) | (page(4) << 8), bdt);
    }
}

#[test]
fn reset_zeroes_at_most_the_whole_table() {
    assert_eq!(FreescaleUsb::new(20, BDT).reset(), reset_ops(16));
    assert_eq!(FreescaleUsb::new(15, BDT).reset(), reset_ops(15));
    assert_eq!(FreescaleUsb::new(0, BDT).reset(), reset_ops(0));
}
