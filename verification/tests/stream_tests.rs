use kinetis_usb::stream::StreamHandler;

#[test]
fn new_stream_is_idle() {
    let s = StreamHandler::new(64);
    assert!(s.is_idle());
    assert_eq!(s.len(), 0);
    assert!(!s.data1());
}

#[test]
fn setup_takes_buffer() {
    let mut s = StreamHandler::new(64);
    s.setup(0x2000_1000, 64, true);
    assert!(!s.is_idle());
    assert_eq!(s.address(), 0x2000_1000);
    assert_eq!(s.len(), 64);
    assert!(s.data1());
}

#[test]
fn len_is_capped_by_max_packet() {
    let mut s = StreamHandler::new(8);
    s.setup(0x100, 20, false);
    assert_eq!(s.len(), 8);
    let mut t = StreamHandler::new(64);
    t.setup(0x100, 20, false);
    assert_eq!(t.len(), 20);
}

#[test]
fn transfer_in_full_packets() {
    let mut s = StreamHandler::new(8);
    s.setup(0x100, 20, false);
    let mut packets = 0;
    loop {
        let n = s.len();
        let toggle = s.data1();
        packets += 1;
        if s.on_token(n) {
            assert_eq!(s.data1(), toggle);
            break;
        }
        assert_eq!(s.data1(), !toggle);
    }
    // ceil(20 / 8)
    assert_eq!(packets, 3);
    assert!(s.is_idle());
}

#[test]
fn transfer_of_a_multiple_of_max_packet() {
    let mut s = StreamHandler::new(8);
    s.setup(0x100, 16, false);
    assert!(!s.on_token(8));
    assert!(s.data1());
    assert!(s.on_token(8));
    assert!(s.data1());
    assert!(s.is_idle());
}

#[test]
fn short_packet_ends_transfer() {
    let mut s = StreamHandler::new(8);
    s.setup(0x100, 64, false);
    assert!(s.on_token(5));
    assert!(!s.data1());
    assert_eq!(s.len(), 8);
    assert!(!s.is_idle());
}

#[test]
fn counters_are_conserved() {
    let mut s = StreamHandler::new(16);
    s.setup(0x100, 40, false);
    assert!(!s.on_token(16));
    assert_eq!(s.len(), 16);
    assert!(!s.on_token(16));
    assert_eq!(s.len(), 8);
    assert!(s.on_token(8));
    assert_eq!(s.len(), 0);
}
