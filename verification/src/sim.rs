//! The System Integration Module: clock enable bits and the USB clock source.

use vstd::prelude::*;

use crate::regs::RegOp;

verus! {

/// Base address of the System Integration Module.
pub const BASE_SIM: u32 = 0x4004_7000;

/// Offset of SOPT2 from [`BASE_SIM`], which selects the USB clock source.
pub const SIM_SOPT2: u32 = 0x1004;

/// Bit of SOPT2 that selects the internal clock for the USB block.
pub const SOPT2_USBSRC_BIT: u32 = 18;

/// A peripheral clock that an enable bit of the SIM can switch on.
#[allow(non_camel_case_types)]
#[derive(PartialEq, Eq, Structural, Debug, Clone, Copy)]
pub enum Clock {
    DAC0,
    FTM2,
    ADC1,
    EWM,
    CMT,
    I2C0,
    I2C1,
    UART0,
    UART1,
    UART2,
    USBOTG,
    CMP,
    VREF,
    LPTIMER,
    TSI,
    PORTA,
    PORTB,
    PORTC,
    PORTD,
    PORTE,
    FTFL,
    DMAMUX,
    FLEXCAN0,
    SPI0,
    SPI1,
    I2S,
    CRC,
    USBDCD,
    PDB,
    PIT,
    FTM0,
    FTM1,
    ADC0,
    RTC,
    DMA,
}

impl Clock {
    /// Where the clock's enable bit is: the offset of its SCGC register from
    /// [`BASE_SIM`] and the bit within it.
    pub open spec fn scgc(self) -> (u32, u32) {
        match self {
            Clock::DAC0 => (0x102C, 12),
            Clock::FTM2 => (0x1030, 24),
            Clock::ADC1 => (0x1030, 27),
            Clock::EWM => (0x1034, 1),
            Clock::CMT => (0x1034, 2),
            Clock::I2C0 => (0x1034, 6),
            Clock::I2C1 => (0x1034, 7),
            Clock::UART0 => (0x1034, 10),
            Clock::UART1 => (0x1034, 11),
            Clock::UART2 => (0x1034, 12),
            Clock::USBOTG => (0x1034, 18),
            Clock::CMP => (0x1034, 19),
            Clock::VREF => (0x1034, 20),
            Clock::LPTIMER => (0x1038, 0),
            Clock::TSI => (0x1038, 5),
            Clock::PORTA => (0x1038, 9),
            Clock::PORTB => (0x1038, 10),
            Clock::PORTC => (0x1038, 11),
            Clock::PORTD => (0x1038, 12),
            Clock::PORTE => (0x1038, 13),
            Clock::FTFL => (0x103C, 0),
            Clock::DMAMUX => (0x103C, 1),
            Clock::FLEXCAN0 => (0x103C, 4),
            Clock::SPI0 => (0x103C, 12),
            Clock::SPI1 => (0x103C, 13),
            Clock::I2S => (0x103C, 15),
            Clock::CRC => (0x103C, 18),
            Clock::USBDCD => (0x103C, 21),
            Clock::PDB => (0x103C, 22),
            Clock::PIT => (0x103C, 23),
            Clock::FTM0 => (0x103C, 24),
            Clock::FTM1 => (0x103C, 25),
            Clock::ADC0 => (0x103C, 27),
            Clock::RTC => (0x103C, 29),
            Clock::DMA => (0x1040, 1),
        }
    }

    /// The clock's code: its SCGC register offset in the upper bits and its
    /// bit number in the low byte.
    pub open spec fn code_spec(self) -> u32 {
        (self.scgc().0 * 256 + self.scgc().1) as u32
    }

    /// The clock's code: its SCGC register offset in the upper bits and its
    /// bit number in the low byte.
    pub fn code(&self) -> (r: u32)
        ensures
            r == self.code_spec(),
    {
        match self {
            Clock::DAC0 => 0x102C_0C,
            Clock::FTM2 => 0x1030_18,
            Clock::ADC1 => 0x1030_1B,
            Clock::EWM => 0x1034_01,
            Clock::CMT => 0x1034_02,
            Clock::I2C0 => 0x1034_06,
            Clock::I2C1 => 0x1034_07,
            Clock::UART0 => 0x1034_0A,
            Clock::UART1 => 0x1034_0B,
            Clock::UART2 => 0x1034_0C,
            Clock::USBOTG => 0x1034_12,
            Clock::CMP => 0x1034_13,
            Clock::VREF => 0x1034_14,
            Clock::LPTIMER => 0x1038_00,
            Clock::TSI => 0x1038_05,
            Clock::PORTA => 0x1038_09,
            Clock::PORTB => 0x1038_0A,
            Clock::PORTC => 0x1038_0B,
            Clock::PORTD => 0x1038_0C,
            Clock::PORTE => 0x1038_0D,
            Clock::FTFL => 0x103C_00,
            Clock::DMAMUX => 0x103C_01,
            Clock::FLEXCAN0 => 0x103C_04,
            Clock::SPI0 => 0x103C_0C,
            Clock::SPI1 => 0x103C_0D,
            Clock::I2S => 0x103C_0F,
            Clock::CRC => 0x103C_12,
            Clock::USBDCD => 0x103C_15,
            Clock::PDB => 0x103C_16,
            Clock::PIT => 0x103C_17,
            Clock::FTM0 => 0x103C_18,
            Clock::FTM1 => 0x103C_19,
            Clock::ADC0 => 0x103C_1B,
            Clock::RTC => 0x103C_1D,
            Clock::DMA => 0x1040_01,
        }
    }
}

/// The clock whose enable bit is bit `bit` of the register at offset `offset`
/// from [`BASE_SIM`], if any.
pub open spec fn clock_at(offset: u32, bit: u32) -> Option<Clock> {
    match (offset, bit) {
        (0x102C, 12) => Some(Clock::DAC0),
        (0x1030, 24) => Some(Clock::FTM2),
        (0x1030, 27) => Some(Clock::ADC1),
        (0x1034, 1) => Some(Clock::EWM),
        (0x1034, 2) => Some(Clock::CMT),
        (0x1034, 6) => Some(Clock::I2C0),
        (0x1034, 7) => Some(Clock::I2C1),
        (0x1034, 10) => Some(Clock::UART0),
        (0x1034, 11) => Some(Clock::UART1),
        (0x1034, 12) => Some(Clock::UART2),
        (0x1034, 18) => Some(Clock::USBOTG),
        (0x1034, 19) => Some(Clock::CMP),
        (0x1034, 20) => Some(Clock::VREF),
        (0x1038, 0) => Some(Clock::LPTIMER),
        (0x1038, 5) => Some(Clock::TSI),
        (0x1038, 9) => Some(Clock::PORTA),
        (0x1038, 10) => Some(Clock::PORTB),
        (0x1038, 11) => Some(Clock::PORTC),
        (0x1038, 12) => Some(Clock::PORTD),
        (0x1038, 13) => Some(Clock::PORTE),
        (0x103C, 0) => Some(Clock::FTFL),
        (0x103C, 1) => Some(Clock::DMAMUX),
        (0x103C, 4) => Some(Clock::FLEXCAN0),
        (0x103C, 12) => Some(Clock::SPI0),
        (0x103C, 13) => Some(Clock::SPI1),
        (0x103C, 15) => Some(Clock::I2S),
        (0x103C, 18) => Some(Clock::CRC),
        (0x103C, 21) => Some(Clock::USBDCD),
        (0x103C, 22) => Some(Clock::PDB),
        (0x103C, 23) => Some(Clock::PIT),
        (0x103C, 24) => Some(Clock::FTM0),
        (0x103C, 25) => Some(Clock::FTM1),
        (0x103C, 27) => Some(Clock::ADC0),
        (0x103C, 29) => Some(Clock::RTC),
        (0x1040, 1) => Some(Clock::DMA),
        _ => None,
    }
}

/// The address of the SCGC register of `clock`.
pub open spec fn scgc_addr(clock: Clock) -> u32 {
    (BASE_SIM + clock.scgc().0) as u32
}

/// The mask of the enable bit of `clock` within its register.
pub open spec fn scgc_mask(clock: Clock) -> u32 {
    1u32 << clock.scgc().1
}

/// The SCGC table: every enable bit lies below bit 32 of a register
/// between SCGC2 and SCGC7, and leads back to its clock.
pub proof fn lemma_scgc_table(clock: Clock)
    ensures
        clock_at(clock.scgc().0, clock.scgc().1) == Some(clock),
        clock.scgc().1 < 32,
        0x102C <= clock.scgc().0 <= 0x1040,
        clock.scgc().0 % 4 == 0,
{
}

proof fn lemma_code_fields(offset: u32, bit: u32)
    requires
        offset < 0x10000,
        bit < 32,
    ensures
        ((offset * 256 + bit) as u32) >> 8u32 == offset,
        ((offset * 256 + bit) as u32) & 31u32 == bit,
{
    assert(((offset * 256 + bit) as u32) >> 8u32 == offset && ((offset * 256 + bit) as u32) & 31u32
        == bit) by (bit_vector)
        requires
            offset < 0x10000,
            bit < 32,
    ;
}

/// Register access that switches on the enable bit of `clock`: the bit of
/// the code's low five bits is set in the SIM register at the offset held
/// in the code's upper bits.
pub fn enable_clock(clock: Clock) -> (r: RegOp)
    ensures
        r == (RegOp::Set32 { addr: scgc_addr(clock), mask: scgc_mask(clock) }),
{
    let code = clock.code();
    proof {
        lemma_scgc_table(clock);
        lemma_code_fields(clock.scgc().0, clock.scgc().1);
    }
    let addr = BASE_SIM + (code >> 8);
    let mask: u32 = 1 << (code & 31);
    RegOp::Set32 { addr, mask }
}

/// Register access that selects the clock source of the USB block: the
/// internal clock sets bit 18 of SOPT2, the external one clears it.
pub fn select_usb_source(internal: bool) -> (r: RegOp)
    ensures
        internal ==> r == (RegOp::Set32 { addr: (BASE_SIM + SIM_SOPT2) as u32, mask: 1u32 << 18u32 }),
        !internal ==> r == (RegOp::Clear32 { addr: (BASE_SIM + SIM_SOPT2) as u32, mask: 1u32 << 18u32 }),
{
    let addr = BASE_SIM + SIM_SOPT2;
    let mask: u32 = 1 << SOPT2_USBSRC_BIT;
    if internal {
        RegOp::Set32 { addr, mask }
    } else {
        RegOp::Clear32 { addr, mask }
    }
}

/// Distinct clocks are switched by distinct enable bits: enabling one clock
/// never touches the bit of another.
pub proof fn lemma_clock_bits_distinct(a: Clock, b: Clock)
    requires
        a != b,
    ensures
        scgc_addr(a) != scgc_addr(b) || scgc_mask(a) != scgc_mask(b),
{
    lemma_scgc_table(a);
    lemma_scgc_table(b);
    let (ba, bb) = (a.scgc().1, b.scgc().1);
    if scgc_addr(a) == scgc_addr(b) {
        assert(ba != bb);
        assert(ba < 32 && bb < 32 && ba != bb ==> (1u32 << ba) != (1u32 << bb)) by (bit_vector);
    }
}

/// Selecting the USB clock source touches no clock enable bit.
pub proof fn lemma_usb_source_is_not_a_clock_bit(clock: Clock)
    ensures
        scgc_addr(clock) != BASE_SIM + SIM_SOPT2,
{
    lemma_scgc_table(clock);
}

/// The clock codes of the Kinetis reference manual: each clock's SCGC
/// register offset from [`BASE_SIM`] in the upper bits and its bit number
/// in the low byte.
pub proof fn lemma_clock_codes()
    ensures
        Clock::DAC0.code_spec() == 0x102C_0C,
        Clock::FTM2.code_spec() == 0x1030_18,
        Clock::ADC1.code_spec() == 0x1030_1B,
        Clock::EWM.code_spec() == 0x1034_01,
        Clock::CMT.code_spec() == 0x1034_02,
        Clock::I2C0.code_spec() == 0x1034_06,
        Clock::I2C1.code_spec() == 0x1034_07,
        Clock::UART0.code_spec() == 0x1034_0A,
        Clock::UART1.code_spec() == 0x1034_0B,
        Clock::UART2.code_spec() == 0x1034_0C,
        Clock::USBOTG.code_spec() == 0x1034_12,
        Clock::CMP.code_spec() == 0x1034_13,
        Clock::VREF.code_spec() == 0x1034_14,
        Clock::LPTIMER.code_spec() == 0x1038_00,
        Clock::TSI.code_spec() == 0x1038_05,
        Clock::PORTA.code_spec() == 0x1038_09,
        Clock::PORTB.code_spec() == 0x1038_0A,
        Clock::PORTC.code_spec() == 0x1038_0B,
        Clock::PORTD.code_spec() == 0x1038_0C,
        Clock::PORTE.code_spec() == 0x1038_0D,
        Clock::FTFL.code_spec() == 0x103C_00,
        Clock::DMAMUX.code_spec() == 0x103C_01,
        Clock::FLEXCAN0.code_spec() == 0x103C_04,
        Clock::SPI0.code_spec() == 0x103C_0C,
        Clock::SPI1.code_spec() == 0x103C_0D,
        Clock::I2S.code_spec() == 0x103C_0F,
        Clock::CRC.code_spec() == 0x103C_12,
        Clock::USBDCD.code_spec() == 0x103C_15,
        Clock::PDB.code_spec() == 0x103C_16,
        Clock::PIT.code_spec() == 0x103C_17,
        Clock::FTM0.code_spec() == 0x103C_18,
        Clock::FTM1.code_spec() == 0x103C_19,
        Clock::ADC0.code_spec() == 0x103C_1B,
        Clock::RTC.code_spec() == 0x103C_1D,
        Clock::DMA.code_spec() == 0x1040_01,
{
}

/// Switching on a clock sets exactly one bit, bit `code & 31`, of the SIM
/// register at offset `code >> 8`.
pub proof fn lemma_enable_bit_from_code(clock: Clock)
    ensures
        scgc_addr(clock) == BASE_SIM + (clock.code_spec() >> 8u32),
        scgc_mask(clock) == 1u32 << (clock.code_spec() & 31u32),
        clock.scgc().1 < 32,
{
    lemma_scgc_table(clock);
    lemma_code_fields(clock.scgc().0, clock.scgc().1);
}

} // verus!
