use kinetis_usb::freescale::{FreescaleUsb, TokenReport};
use kinetis_usb::regs::RegOp;
use kinetis_usb::stream::StreamHandler;
use kinetis_usb::usb::{
    get_ep_state, handle_out, handle_setup, handle_transaction, prepare_out, EndpointType, EpState, EpTable,
    TokenPid, UsbModule, UsbPeripheral, UsbState,
};

const BDT: u32 = 0x1FFF_8000;
const EP0_BUF: u32 = 0x2000_0200;

#[test]
fn pid_codes_round_trip() {
    let pids = [
        TokenPid::Out, TokenPid::In, TokenPid::Sof, TokenPid::Setup, TokenPid::Data0,
        TokenPid::Data1, TokenPid::Data2, TokenPid::Mdata, TokenPid::Ack, TokenPid::Nak,
        TokenPid::Stall, TokenPid::Nyet, TokenPid::Pre, TokenPid::Split, TokenPid::Ping,
        TokenPid::Reserved,
    ];
    for p in pids {
        assert!(p.code() < 16);
        assert_eq!(TokenPid::from_uint(p.code()), Some(p));
    }
    for n in 0..16usize {
        assert!(TokenPid::from_uint(n).is_some());
    }
    assert_eq!(TokenPid::from_uint(16), None);
    assert_eq!(TokenPid::from_uint(0x0D), Some(TokenPid::Setup));
    assert_eq!(TokenPid::Setup.code(), 0b1101);
    assert_eq!(TokenPid::In.code(), 0b1001);
}

#[test]
fn module_starts_unattached() {
    let m = UsbModule::new(FreescaleUsb::new(4, BDT), EP0_BUF);
    assert_eq!(m.state(), UsbState::Unattached);
}

#[test]
fn module_init_attaches() {
    let f = FreescaleUsb::new(4, BDT);
    let mut expected = f.init();
    expected.extend(f.attach());
    let mut m = UsbModule::new(f, EP0_BUF);
    assert_eq!(m.init(), expected);
    assert_eq!(m.state(), UsbState::Attached);
}

#[test]
fn module_bus_reset_arms_endpoint_zero() {
    let f = FreescaleUsb::new(4, BDT);
    let mut expected = f.reset();
    expected.push(RegOp::Write8 { addr: 0x4007_20C0, value: 0x0D });
    expected.push(RegOp::HaltIfSet32 { addr: BDT, mask: 0x80 });
    expected.push(RegOp::Write32 { addr: BDT + 4, value: EP0_BUF });
    expected.push(RegOp::Write32 { addr: BDT, value: 0x0040_0088 });
    let mut m = UsbModule::new(f, EP0_BUF);
    m.init();
    assert_eq!(m.on_reset(), expected);
    assert_eq!(m.state(), UsbState::Default);
}

#[test]
fn second_bus_reset_arms_endpoint_zero_again() {
    let mut m = UsbModule::new(FreescaleUsb::new(4, BDT), EP0_BUF);
    m.init();
    m.on_reset();
    let ops = m.on_reset();
    assert_eq!(ops.len(), 11);
    assert_eq!(ops[7], RegOp::Write8 { addr: 0x4007_20C0, value: 0x0D });
    // The ping-pong bit of endpoint 0 moved on to the odd entry.
    assert_eq!(ops[8], RegOp::HaltIfSet32 { addr: BDT + 8, mask: 0x80 });
    assert_eq!(ops[10], RegOp::Write32 { addr: BDT + 8, value: 0x0040_0088 });
    assert_eq!(m.state(), UsbState::Default);
}

#[test]
fn tokens_leave_the_module_unchanged() {
    let mut m = UsbModule::new(FreescaleUsb::new(4, BDT), EP0_BUF);
    m.init();
    assert!(m.on_token(0, false, 0x0D, 8).is_empty());
    m.on_reset();
    assert!(m.on_token(0, false, 0x0D, 8).is_empty());
    assert!(m.on_token(1, false, 0x0D, 8).is_empty());
    assert!(m.on_token(0, false, 99, 8).is_empty());
    assert_eq!(m.state(), UsbState::Default);
    // The module is as it was: the next reset uses the odd entry of EP0.
    let ops = m.on_reset();
    assert_eq!(ops[8], RegOp::HaltIfSet32 { addr: BDT + 8, mask: 0x80 });
}

#[test]
fn module_stall_handling() {
    let mut m = UsbModule::new(FreescaleUsb::new(4, BDT), EP0_BUF);
    m.init();
    assert_eq!(m.on_stall(), vec![RegOp::Clear8 { addr: 0x4007_20C0, mask: 0x02 }]);
    assert_eq!(m.state(), UsbState::Attached);
    assert_eq!(m.stall_ep(1), vec![RegOp::Set8 { addr: 0x4007_20C4, mask: 0x02 }]);
}

#[test]
fn module_queues_a_transmission() {
    let mut m = UsbModule::new(FreescaleUsb::new(4, BDT), EP0_BUF);
    assert_eq!(
        m.queue_tx(1, true, 0x2000_0400, 8),
        vec![
            RegOp::HaltIfSet32 { addr: BDT + 48, mask: 0x80 },
            RegOp::Write32 { addr: BDT + 52, value: 0x2000_0400 },
            RegOp::Write32 { addr: BDT + 48, value: 0x0008_00C8 },
        ]
    );
    let next = m.queue_tx(1, false, 0x2000_0480, 100);
    assert_eq!(next[0], RegOp::HaltIfSet32 { addr: BDT + 56, mask: 0x80 });
    assert_eq!(next[2], RegOp::Write32 { addr: BDT + 56, value: 0x0040_0088 });
}

#[test]
fn module_endpoint_operations() {
    let mut m = UsbModule::new(FreescaleUsb::new(4, BDT), EP0_BUF);
    assert_eq!(
        m.enable_ep(2, EndpointType::TxRx),
        vec![RegOp::Write8 { addr: 0x4007_20C8, value: 0x1D }]
    );
    let mut s = StreamHandler::new(64);
    s.setup(0x2000_0500, 10, true);
    assert_eq!(
        m.queue_rx(2, &s),
        vec![
            RegOp::HaltIfSet32 { addr: BDT + 64, mask: 0x80 },
            RegOp::Write32 { addr: BDT + 68, value: 0x2000_0500 },
            RegOp::Write32 { addr: BDT + 64, value: 0x000A_00C8 },
        ]
    );
    let again = m.queue_rx(2, &s);
    assert_eq!(again[0], RegOp::HaltIfSet32 { addr: BDT + 72, mask: 0x80 });
}

fn ep_state(is_setup: bool) -> EpState {
    EpState { ep: 1, is_setup, data1: false, data: vec![1, 2, 3], remaining: 64, max_size: 64 }
}

#[test]
fn setup_token_is_taken_as_out() {
    let f = FreescaleUsb::new(4, BDT);
    let mut s = ep_state(true);
    assert!(handle_setup(&f, &mut s, 8).is_empty());
    assert_eq!(s.remaining, 56);
    assert_eq!(s.data, vec![1, 2, 3]);
    let mut t = ep_state(false);
    assert_eq!(
        handle_setup(&f, &mut t, 8),
        vec![RegOp::Set8 { addr: 0x4007_20C4, mask: 0x02 }]
    );
    assert_eq!(t.remaining, 64);
}

#[test]
fn out_token_takes_bytes_off() {
    let mut s = ep_state(false);
    handle_out(&mut s, 60);
    assert_eq!(s.remaining, 4);
    handle_out(&mut s, 4);
    assert_eq!(s.remaining, 0);
    assert_eq!(s.ep, 1);
    assert_eq!(s.max_size, 64);
}

#[test]
fn endpoint_states() {
    let mut table = EpTable::new(32);
    for ep in 0..16u8 {
        for tx in [false, true] {
            for odd in [false, true] {
                let s = get_ep_state(&mut table, ep, tx, odd).unwrap();
                assert_eq!(s.ep, ep);
                assert_eq!(s.max_size, 32);
                assert!(!s.is_setup);
            }
        }
    }
    assert!(get_ep_state(&mut table, 16, false, false).is_none());
    get_ep_state(&mut table, 3, true, true).unwrap().remaining = 17;
    assert_eq!(get_ep_state(&mut table, 3, true, true).unwrap().remaining, 17);
    assert_eq!(get_ep_state(&mut table, 3, true, false).unwrap().remaining, 0);
}

#[test]
fn prepare_out_gives_the_buffer() {
    let mut s = ep_state(true);
    prepare_out(&mut s, vec![0; 8], 8);
    assert_eq!(s.remaining, 8);
    assert_eq!(s.data, vec![0; 8]);
    assert_eq!(s.ep, 1);
    assert!(s.is_setup);
}

#[test]
fn interrupt_with_bus_reset() {
    let f = FreescaleUsb::new(4, BDT);
    let mut m = UsbModule::new(f, EP0_BUF);
    m.init();
    let ops = m.on_interrupt(0x89, None);
    assert_eq!(ops.len(), 11);
    assert_eq!(ops[7], RegOp::Write8 { addr: 0x4007_20C0, value: 0x0D });
    assert_eq!(m.state(), UsbState::Default);
    assert_eq!(m.on_interrupt(0x01, None).len(), 11);
}

#[test]
fn interrupt_with_setup_token() {
    let mut m = UsbModule::new(FreescaleUsb::new(4, BDT), EP0_BUF);
    m.init();
    let report = TokenReport { stat: 0x00, bdt_word: 0x0008_0034 };
    let ops = m.on_interrupt(0x08, Some(report));
    assert_eq!(
        ops,
        vec![
            RegOp::Write8 { addr: 0x4007_2094, value: 0x01 },
            RegOp::Write8 { addr: 0x4007_2080, value: 0x08 },
        ]
    );
    assert_eq!(m.state(), UsbState::Attached);
}

#[test]
fn interrupt_with_other_flags() {
    let mut m = UsbModule::new(FreescaleUsb::new(4, BDT), EP0_BUF);
    let report = TokenReport { stat: 0x18, bdt_word: 0x0040_0024 };
    assert_eq!(
        m.on_interrupt(0x88, Some(report)),
        vec![
            RegOp::Clear8 { addr: 0x4007_20C0, mask: 0x02 },
            RegOp::Write8 { addr: 0x4007_2080, value: 0x88 },
        ]
    );
    assert_eq!(
        m.on_interrupt(0x80, None),
        vec![
            RegOp::Clear8 { addr: 0x4007_20C0, mask: 0x02 },
            RegOp::Write8 { addr: 0x4007_2080, value: 0x80 },
        ]
    );
    assert_eq!(m.on_interrupt(0x00, None), vec![RegOp::Write8 { addr: 0x4007_2080, value: 0x00 }]);
    assert_eq!(m.state(), UsbState::Unattached);
}

#[test]
fn interrupt_with_setup_packet_after_reset() {
    let mut m = UsbModule::new(FreescaleUsb::new(4, BDT), EP0_BUF);
    m.init();
    m.on_interrupt(0x01, None);
    // SETUP on endpoint 0, even receive entry, 8 bytes.
    let report = TokenReport { stat: 0x00, bdt_word: 0x0008_0034 };
    let ops = m.on_interrupt(0x08, Some(report));
    assert_eq!(
        ops,
        vec![
            RegOp::Write8 { addr: 0x4007_2094, value: 0x01 },
            RegOp::Write8 { addr: 0x4007_2080, value: 0x08 },
        ]
    );
    assert_eq!(m.state(), UsbState::Default);
}

#[test]
fn transaction_on_an_endpoint_buffer() {
    let mut table = EpTable::new(64);
    handle_transaction(&mut table, 2, true, false, 0x09, 8);
    let s = get_ep_state(&mut table, 2, true, false).unwrap();
    assert_eq!(s.ep, 2);
    assert_eq!(s.remaining, 0);
}
