use kinetis_usb::regs::{bits_match, clear_bits, set_bits};

#[test]
fn set_bits_sets_mask() {
    assert_eq!(set_bits(0b1010, 0b0101), 0b1111);
    assert_eq!(set_bits(0x22, 0x22), 0x22);
    assert_eq!(set_bits(0x00, 0x10), 0x10);
}

#[test]
fn clear_bits_clears_mask() {
    assert_eq!(clear_bits(0xFF, 0x0F), 0xF0);
    assert_eq!(clear_bits(0x0004_0000, 1 << 18), 0);
    assert_eq!(clear_bits(0x1234, 0), 0x1234);
}

#[test]
fn bits_match_compares_masked_bits() {
    assert!(!bits_match(0x80, 0x80, 0x00));
    assert!(bits_match(0x7F, 0x80, 0x00));
    assert!(bits_match(0xC3, 0x0F, 0x03));
}

#[test]
fn set_then_clear_last_wins() {
    for v in [0u32, 0x55, 0xAA, 0xFFFF_FFFF, 0x1234_5678] {
        for m in [0u32, 1, 0x80, 0xF0F0, 0xFFFF_FFFF] {
            assert_eq!(clear_bits(set_bits(v, m), m), clear_bits(v, m));
            assert_eq!(set_bits(clear_bits(v, m), m), set_bits(v, m));
            assert_eq!(set_bits(v, m) & m, m);
            assert_eq!(clear_bits(v, m) & m, 0);
        }
    }
}
