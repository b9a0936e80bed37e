use kinetis_usb::usb::{get_ep_state, EpTable};
use kinetis_usb::control::{
    handle_control, setup_control, ControlRequest, Ep0Handler, Recipient, Request, RequestKind,
};

#[test]
fn get_descriptor_from_device() {
    let r = handle_control(vec![0x80, 0x06, 0x00, 0x01, 0x00, 0x00, 0x40, 0x00]);
    assert_eq!(
        r,
        ControlRequest {
            dir_in: true,
            kind: RequestKind::Standard,
            recipient: Recipient::Device,
            request: Request::GetDescriptor,
        }
    );
}

#[test]
fn class_request_to_interface() {
    let r = handle_control(vec![0x21, 0x09]);
    assert!(!r.dir_in);
    assert_eq!(r.kind, RequestKind::Class);
    assert_eq!(r.recipient, Recipient::Interface);
    assert_eq!(r.request, Request::SetConfig);
}

#[test]
fn endpoint_and_vendor_requests() {
    let r = handle_control(vec![0x02, 0x01]);
    assert_eq!(r.recipient, Recipient::Endpoint);
    assert_eq!(r.request, Request::ClearFeature);
    let v = handle_control(vec![0xC3, 0xFF]);
    assert!(v.dir_in);
    assert_eq!(v.kind, RequestKind::Vendor);
    assert_eq!(v.recipient, Recipient::Other);
    assert_eq!(v.request, Request::Unsupported);
}

#[test]
fn reserved_fields() {
    let r = handle_control(vec![0x7F, 0x0B]);
    assert!(!r.dir_in);
    assert_eq!(r.kind, RequestKind::Reserved);
    assert_eq!(r.recipient, Recipient::Reserved);
    assert_eq!(r.request, Request::Unsupported);
}

#[test]
fn every_request_code() {
    let table = [
        (0x00, Request::GetStatus),
        (0x01, Request::ClearFeature),
        (0x03, Request::SetFeature),
        (0x05, Request::SetAddress),
        (0x06, Request::GetDescriptor),
        (0x07, Request::SetDescriptor),
        (0x08, Request::GetConfig),
        (0x09, Request::SetConfig),
        (0x0A, Request::GetInterface),
        (0x11, Request::SetInterface),
    ];
    for code in 0..=255u8 {
        let r = handle_control(vec![0x00, code]).request;
        match table.iter().find(|(c, _)| *c == code) {
            Some((_, expected)) => assert_eq!(r, *expected),
            None => assert_eq!(r, Request::Unsupported),
        }
    }
}

#[test]
fn request_type_fields_rebuild_the_byte() {
    for b in 0..=255u8 {
        let r = handle_control(vec![b, 0]);
        let kind = match r.kind {
            RequestKind::Standard => 0,
            RequestKind::Class => 1,
            RequestKind::Vendor => 2,
            RequestKind::Reserved => 3,
        };
        assert_eq!(r.dir_in, b >= 0x80);
        assert_eq!(kind, (b >> 5) & 3);
        let rcpt = b & 0x1F;
        let expected = match rcpt {
            0 => Recipient::Device,
            1 => Recipient::Interface,
            2 => Recipient::Endpoint,
            3 => Recipient::Other,
            _ => Recipient::Reserved,
        };
        assert_eq!(r.recipient, expected);
    }
}

#[test]
fn setup_control_readies_endpoint_zero() {
    let _h = Ep0Handler::new(64, 0x2000_0000);
    let mut table = EpTable::new(64);
    setup_control(&mut table);
    let s = get_ep_state(&mut table, 0, false, false).unwrap();
    assert_eq!(s.ep, 0);
    assert!(s.is_setup);
    assert!(!s.data1);
    assert_eq!(s.remaining, 64);
    assert_eq!(s.data, vec![0u8; 64]);
    let other = get_ep_state(&mut table, 0, true, false).unwrap();
    assert!(!other.is_setup);
    assert_eq!(other.remaining, 0);
}
