use kinetis_usb::regs::RegOp;
use kinetis_usb::sim::{enable_clock, select_usb_source, Clock};

fn all_clocks() -> Vec<Clock> {
    vec![
        Clock::DAC0, Clock::FTM2, Clock::ADC1, Clock::EWM, Clock::CMT, Clock::I2C0, Clock::I2C1,
        Clock::UART0, Clock::UART1, Clock::UART2, Clock::USBOTG, Clock::CMP, Clock::VREF,
        Clock::LPTIMER, Clock::TSI, Clock::PORTA, Clock::PORTB, Clock::PORTC, Clock::PORTD,
        Clock::PORTE, Clock::FTFL, Clock::DMAMUX, Clock::FLEXCAN0, Clock::SPI0, Clock::SPI1,
        Clock::I2S, Clock::CRC, Clock::USBDCD, Clock::PDB, Clock::PIT, Clock::FTM0, Clock::FTM1,
        Clock::ADC0, Clock::RTC, Clock::DMA,
    ]
}

#[test]
fn clock_codes() {
    assert_eq!(Clock::USBOTG.code(), 0x1034_12);
    assert_eq!(Clock::DAC0.code(), 0x102C_0C);
    assert_eq!(Clock::DMA.code(), 0x1040_01);
    assert_eq!(Clock::RTC.code(), 0x103C_1D);
}

#[test]
fn enable_usb_clock() {
    assert_eq!(enable_clock(Clock::USBOTG), RegOp::Set32 { addr: 0x4004_8034, mask: 1 << 18 });
}

#[test]
fn enable_other_clocks() {
    assert_eq!(enable_clock(Clock::PORTA), RegOp::Set32 { addr: 0x4004_8038, mask: 1 << 9 });
    assert_eq!(enable_clock(Clock::DAC0), RegOp::Set32 { addr: 0x4004_802C, mask: 1 << 12 });
    assert_eq!(enable_clock(Clock::DMA), RegOp::Set32 { addr: 0x4004_8040, mask: 1 << 1 });
    assert_eq!(enable_clock(Clock::RTC), RegOp::Set32 { addr: 0x4004_803C, mask: 1 << 29 });
}

#[test]
fn clocks_have_distinct_enable_bits() {
    let clocks = all_clocks();
    for (i, a) in clocks.iter().enumerate() {
        for (j, b) in clocks.iter().enumerate() {
            if i != j {
                assert_ne!(enable_clock(*a), enable_clock(*b));
            }
        }
    }
}

#[test]
fn usb_source_selection() {
    assert_eq!(select_usb_source(true), RegOp::Set32 { addr: 0x4004_8004, mask: 1 << 18 });
    assert_eq!(select_usb_source(false), RegOp::Clear32 { addr: 0x4004_8004, mask: 1 << 18 });
    for c in all_clocks() {
        match enable_clock(c) {
            RegOp::Set32 { addr, .. } => assert_ne!(addr, 0x4004_8004),
            _ => panic!("a clock is switched on by a set"),
        }
    }
}
