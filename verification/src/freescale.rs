//! The USB-OTG block of Freescale Kinetis parts: its registers, the buffer
//! descriptor table (BDT) through which it exchanges packets with RAM, and
//! the decoding of its interrupt and status registers.

use vstd::prelude::*;

use crate::regs::RegOp;
use crate::sim::{
    enable_clock, lemma_scgc_table, scgc_addr, scgc_mask, select_usb_source, Clock, BASE_SIM,
    SIM_SOPT2,
};
use crate::stream::{StreamHandler, StreamState};
use crate::control::{Ep0State, EP0_BUF_LEN};
use crate::usb::{EndpointType, TokenPid, UsbModule, UsbPeripheral, UsbState};

verus! {

/// Base address of the USB-OTG block.
pub const BASE_USB: u32 = 0x4007_2000;
/// OTG interrupt status register.
pub const USB_OTGISTAT: u32 = BASE_USB + 0x0010;
/// Interrupt status register.
pub const USB_ISTAT: u32 = BASE_USB + 0x0080;
/// Interrupt enable register.
pub const USB_INTEN: u32 = BASE_USB + 0x0084;
/// Error interrupt status register.
pub const USB_ERRSTAT: u32 = BASE_USB + 0x0088;
/// Status register of the last completed token.
pub const USB_STAT: u32 = BASE_USB + 0x0090;
/// Control register.
pub const USB_CTL: u32 = BASE_USB + 0x0094;
/// Device address register.
pub const USB_ADDR: u32 = BASE_USB + 0x0098;
/// BDT page register 1.
pub const USB_BDTPAGE1: u32 = BASE_USB + 0x009C;
/// BDT page register 2.
pub const USB_BDTPAGE2: u32 = BASE_USB + 0x00B0;
/// BDT page register 3.
pub const USB_BDTPAGE3: u32 = BASE_USB + 0x00B4;
/// Control register of endpoint 0; that of endpoint n is 4 n bytes on.
pub const USB_ENDPT0: u32 = BASE_USB + 0x00C0;
/// STALL flag of an endpoint control register.
pub const ENDPT_STALL: u8 = 0x02;
/// USB control register (transceiver and pull-downs).
pub const USB_USBCTRL: u32 = BASE_USB + 0x0100;
/// OTG control register (pull-ups).
pub const USB_CONTROL: u32 = BASE_USB + 0x0108;
/// Transceiver control register 0 (module reset).
pub const USB_USBTRC0: u32 = BASE_USB + 0x010C;

/// Interrupt sources of the USB block.
#[allow(non_camel_case_types)]
#[derive(PartialEq, Eq, Structural, Debug, Clone, Copy)]
pub enum UsbInt {
    USBRSTEN,
    ERROREN,
    SOFTOKEN,
    TOKDNEEN,
    SLEEPEN,
    RESUMEEN,
    ATTACHEN,
    STALLEN,
}

impl UsbInt {
    /// The enable bit of the source in the interrupt enable register.
    pub open spec fn bits_spec(self) -> u8 {
        match self {
            UsbInt::USBRSTEN => 0x01,
            UsbInt::ERROREN => 0x02,
            UsbInt::SOFTOKEN => 0x04,
            UsbInt::TOKDNEEN => 0x08,
            UsbInt::SLEEPEN => 0x10,
            UsbInt::RESUMEEN => 0x20,
            UsbInt::ATTACHEN => 0x40,
            UsbInt::STALLEN => 0x80,
        }
    }

    /// The enable bit of the source in the interrupt enable register.
    pub fn bits(&self) -> (r: u8)
        ensures
            r == self.bits_spec(),
    {
        match self {
            UsbInt::USBRSTEN => 0x01,
            UsbInt::ERROREN => 0x02,
            UsbInt::SOFTOKEN => 0x04,
            UsbInt::TOKDNEEN => 0x08,
            UsbInt::SLEEPEN => 0x10,
            UsbInt::RESUMEEN => 0x20,
            UsbInt::ATTACHEN => 0x40,
            UsbInt::STALLEN => 0x80,
        }
    }
}

/// Offset in bytes, from the start of the BDT, of the entry of endpoint
/// `ep` for the given direction and even or odd buffer.  Each entry is two
/// words: the control word, then the buffer address.
pub open spec fn bdt_offset(ep: int, is_tx: bool, is_odd: bool) -> int {
    32 * ep + (if is_tx {
        16int
    } else {
        0int
    }) + (if is_odd {
        8int
    } else {
        0int
    })
}

/// Control word of a BDT entry that hands a buffer of `len` bytes to the
/// USB block: the byte count in bits 16 to 25, the OWN bit (0x80), the data
/// toggle synchronisation bit (0x08) and the data toggle in bit 6.
pub open spec fn bdt_control_word(len: usize, data1: bool) -> u32 {
    ((((len & 0x3FF) as u32) << 16u32) | 0x88u32) | ((if data1 {
        1u32
    } else {
        0u32
    }) << 6u32)
}

/// Endpoint control register value for an endpoint of kind `typ`: bit 0
/// handshakes, bit 2 enables transmission, bit 3 reception, bit 4 disables
/// control transfers; bit 1 (stall) is never set.
pub open spec fn endpoint_config(typ: EndpointType) -> u8 {
    match typ {
        EndpointType::Control => 0x0D,
        EndpointType::TxOnly => 0x15,
        EndpointType::RxOnly => 0x19,
        EndpointType::TxRx => 0x1D,
        EndpointType::IsochronousTx => 0x14,
        EndpointType::IsochronousRx => 0x18,
    }
}

/// Address of the control register of endpoint `ep`.
pub open spec fn endpoint_register(ep: usize) -> u32 {
    (USB_ENDPT0 + ep * 4) as u32
}

/// Accesses that put the USB block through a hard reset and wait for it to
/// finish.
pub open spec fn reset_hard_ops() -> Seq<RegOp> {
    seq![
        RegOp::Write8 { addr: USB_USBTRC0, value: 0x80 },
        RegOp::WaitFor8 { addr: USB_USBTRC0, mask: 0x80, value: 0x00 },
    ]
}

/// Interrupts that the stack enables: STALL, token done and bus reset.
pub open spec fn enabled_interrupts() -> u8 {
    0x80u8 | 0x08u8 | 0x01u8
}

/// Bytes of the BDT in use with `max_ep` endpoints: 32 per endpoint, and
/// the whole table from 16 endpoints on.
pub open spec fn bdt_len(max_ep: usize) -> u32 {
    if max_ep > 15 {
        512
    } else {
        (max_ep * 32) as u32
    }
}

/// What a [`FreescaleUsb`] holds, as plain values.
pub struct FreescaleState {
    /// Address of the buffer descriptor table in RAM.
    pub bdt: u32,
    /// Number of endpoints in use, endpoint 0 included.
    pub max_ep: usize,
    /// For each endpoint and direction (index 2 ep + tx), whether the next
    /// packet goes to the odd BDT entry.
    pub ping: Seq<bool>,
}

impl FreescaleState {
    /// Index of endpoint `ep` and the given direction in the ping-pong
    /// table.
    pub open spec fn ping_index(ep: usize, is_tx: bool) -> int {
        ep * 2 + if is_tx {
            1int
        } else {
            0int
        }
    }

    /// Whether the next packet of endpoint `ep` in the given direction goes
    /// to the odd BDT entry.
    pub open spec fn next_odd(self, ep: usize, is_tx: bool) -> bool {
        self.ping[FreescaleState::ping_index(ep, is_tx)]
    }

    /// Address of the control word of a BDT entry.
    pub open spec fn entry_addr(self, ep: usize, is_tx: bool, is_odd: bool) -> u32 {
        (self.bdt + bdt_offset(ep as int, is_tx, is_odd)) as u32
    }

    /// Accesses that return the block to its default state: the block is
    /// disabled, all status flags are cleared, the BDT is zeroed, the
    /// address is reset and the block is enabled again.
    pub open spec fn reset_ops(self) -> Seq<RegOp> {
        seq![
            RegOp::Set8 { addr: USB_CTL, mask: 0x22 },
            RegOp::Write8 { addr: USB_ISTAT, value: 0xFF },
            RegOp::Write8 { addr: USB_ERRSTAT, value: 0xFF },
            RegOp::Write8 { addr: USB_OTGISTAT, value: 0xFF },
            RegOp::Zero { addr: self.bdt, len: bdt_len(self.max_ep) },
            RegOp::Write8 { addr: USB_ADDR, value: 0 },
            RegOp::Write8 { addr: USB_CTL, value: 0x01 },
        ]
    }

    /// Accesses that bring the block up: its clock is switched on and taken
    /// from the internal source, the block is hard reset, the BDT pages are
    /// written, the transceiver is enabled, the block is reset and the
    /// interrupts of [`enabled_interrupts`] are enabled.
    pub open spec fn init_ops(self) -> Seq<RegOp> {
        seq![
            RegOp::Set32 { addr: scgc_addr(Clock::USBOTG), mask: scgc_mask(Clock::USBOTG) },
            RegOp::Set32 { addr: (BASE_SIM + SIM_SOPT2) as u32, mask: 1u32 << 18u32 },
        ] + reset_hard_ops() + seq![
            RegOp::Write8 { addr: USB_BDTPAGE1, value: (self.bdt >> 8u32) as u8 },
            RegOp::Write8 { addr: USB_BDTPAGE2, value: (self.bdt >> 16u32) as u8 },
            RegOp::Write8 { addr: USB_BDTPAGE3, value: (self.bdt >> 24u32) as u8 },
            RegOp::Write8 { addr: USB_USBCTRL, value: 0x00 },
        ] + self.reset_ops() + seq![RegOp::Write8 { addr: USB_INTEN, value: enabled_interrupts() }]
    }

    /// Accesses that queue the next packet of `stream` on endpoint `ep`:
    /// the device halts if the USB block still owns the BDT entry; else the
    /// buffer address and then the control word are written.
    pub open spec fn queue_next_ops(self, ep: usize, is_tx: bool, stream: StreamState) -> Seq<
        RegOp,
    > {
        let entry = self.entry_addr(ep, is_tx, self.next_odd(ep, is_tx));
        seq![
            RegOp::HaltIfSet32 { addr: entry, mask: 0x80 },
            RegOp::Write32 { addr: (entry + 4) as u32, value: stream.buf->0 },
            RegOp::Write32 {
                addr: entry,
                value: bdt_control_word(stream.packet_len(), stream.data1),
            },
        ]
    }

    /// The state after a packet was queued: the ping-pong bit of the
    /// endpoint and direction flips.
    pub open spec fn after_queue(self, ep: usize, is_tx: bool) -> FreescaleState {
        let i = FreescaleState::ping_index(ep, is_tx);
        FreescaleState { ping: self.ping.update(i, !self.ping[i]), ..self }
    }
}

/// The USB-OTG block of a Kinetis part.
pub struct FreescaleUsb {
    bdt: u32,
    max_ep: usize,
    ping: [bool; 32],
}

impl View for FreescaleUsb {
    type V = FreescaleState;

    closed spec fn view(&self) -> FreescaleState {
        FreescaleState { bdt: self.bdt, max_ep: self.max_ep, ping: self.ping@ }
    }
}

/// Size in bytes of the buffer descriptor table.
pub const BDT_SIZE: u32 = 512;

impl FreescaleUsb {
    /// The block with `max_endpoint` endpoints in use (endpoint 0
    /// included), whose BDT is the [`BDT_SIZE`] bytes at `bdt`, which the
    /// block needs aligned on [`BDT_SIZE`] bytes.
    pub fn new(max_endpoint: usize, bdt: u32) -> (r: FreescaleUsb)
        requires
            bdt <= u32::MAX - BDT_SIZE,
            bdt % BDT_SIZE == 0,
        ensures
            r@.bdt == bdt,
            r@.max_ep == max_endpoint,
            r@.ping == Seq::new(32, |i: int| false),
            r.inv(),
    {
        let r = FreescaleUsb { bdt, max_ep: max_endpoint, ping: [false; 32] };
        assert(r@.ping =~= Seq::new(32, |i: int| false));
        r
    }

    /// Offset in bytes, from the start of the BDT, of the entry of endpoint
    /// `ep` for the given direction and even or odd buffer.
    pub fn get_bdt_offset(ep: usize, is_tx: bool, is_odd: bool) -> (r: usize)
        requires
            32 * ep + 24 <= usize::MAX,
        ensures
            r == bdt_offset(ep as int, is_tx, is_odd),
    {
        32 * ep + (if is_tx {
            16
        } else {
            0
        }) + (if is_odd {
            8
        } else {
            0
        })
    }

    /// Address of the control word of the BDT entry of endpoint `ep` for
    /// the given direction and buffer; the buffer address follows it.
    pub fn bdt_entry_addr(&self, ep: usize, is_tx: bool, is_odd: bool) -> (r: u32)
        requires
            self.inv(),
            ep < 16,
        ensures
            r == self@.entry_addr(ep, is_tx, is_odd),
            r + 8 <= self@.bdt + BDT_SIZE,
    {
        let offset = FreescaleUsb::get_bdt_offset(ep, is_tx, is_odd);
        self.bdt + (offset as u32)
    }

    /// Whether the next packet of endpoint `ep` in the given direction goes
    /// to the odd BDT entry.
    pub fn next_odd(&self, ep: usize, is_tx: bool) -> (r: bool)
        requires
            ep < 16,
        ensures
            r == self@.next_odd(ep, is_tx),
    {
        self.ping[ep * 2 + if is_tx {
            1
        } else {
            0
        }]
    }

    /// Access that writes the control word of a BDT entry.
    pub fn set_bdt_setting(&self, ep: usize, is_tx: bool, is_odd: bool, val: u32) -> (r: RegOp)
        requires
            self.inv(),
            ep < 16,
        ensures
            r == (RegOp::Write32 { addr: self@.entry_addr(ep, is_tx, is_odd), value: val }),
    {
        RegOp::Write32 { addr: self.bdt_entry_addr(ep, is_tx, is_odd), value: val }
    }

    /// Access that writes the buffer address of a BDT entry.
    pub fn set_bdt_address(&self, ep: usize, is_tx: bool, is_odd: bool, val: u32) -> (r: RegOp)
        requires
            self.inv(),
            ep < 16,
        ensures
            r == (RegOp::Write32 {
                addr: (self@.entry_addr(ep, is_tx, is_odd) + 4) as u32,
                value: val,
            }),
    {
        RegOp::Write32 { addr: self.bdt_entry_addr(ep, is_tx, is_odd) + 4, value: val }
    }

    /// Accesses that put the block through a hard reset and wait for it.
    fn usb_reset_hard(&self) -> (r: Vec<RegOp>)
        ensures
            r@ == reset_hard_ops(),
    {
        let mut ops = Vec::new();
        ops.push(RegOp::Write8 { addr: USB_USBTRC0, value: 0x80 });
        ops.push(RegOp::WaitFor8 { addr: USB_USBTRC0, mask: 0x80, value: 0x00 });
        ops
    }

    /// Access that sets the interrupt enable register.
    fn set_interrupts(&self, val: u8) -> (r: RegOp)
        ensures
            r == (RegOp::Write8 { addr: USB_INTEN, value: val }),
    {
        RegOp::Write8 { addr: USB_INTEN, value: val }
    }
}

impl UsbPeripheral for FreescaleUsb {
    open spec fn inv(&self) -> bool {
        &&& self@.bdt <= u32::MAX - BDT_SIZE
        &&& self@.bdt % BDT_SIZE == 0
        &&& self@.ping.len() == 32
    }

    open spec fn endpoint_limit(&self) -> usize {
        16
    }

    open spec fn init_ops(&self) -> Seq<RegOp> {
        self@.init_ops()
    }

    open spec fn attach_ops(&self) -> Seq<RegOp> {
        seq![RegOp::Set8 { addr: USB_CONTROL, mask: 0x10 }]
    }

    open spec fn reset_ops(&self) -> Seq<RegOp> {
        self@.reset_ops()
    }

    open spec fn queue_next_ops(&self, ep: usize, is_tx: bool, stream: StreamState) -> Seq<RegOp> {
        self@.queue_next_ops(ep, is_tx, stream)
    }

    open spec fn queued(&self, ep: usize, is_tx: bool, next: Self) -> bool {
        next@ == self@.after_queue(ep, is_tx)
    }

    open spec fn set_address_ops(&self, addr: u8) -> Seq<RegOp> {
        seq![RegOp::Write8 { addr: USB_ADDR, value: addr }]
    }

    open spec fn ep_enable_ops(&self, ep: usize, typ: EndpointType) -> Seq<RegOp> {
        seq![RegOp::Write8 { addr: endpoint_register(ep), value: endpoint_config(typ) }]
    }

    open spec fn ep_stall_ops(&self, ep: usize) -> Seq<RegOp> {
        if ep <= 15 {
            seq![RegOp::Set8 { addr: endpoint_register(ep), mask: ENDPT_STALL }]
        } else {
            Seq::empty()
        }
    }

    open spec fn ep_unstall_ops(&self, ep: usize) -> Seq<RegOp> {
        if ep <= 15 {
            seq![RegOp::Clear8 { addr: endpoint_register(ep), mask: ENDPT_STALL }]
        } else {
            Seq::empty()
        }
    }

    /// Switches the block's clock on, selects the internal clock source, hard
    /// resets the block, loads the BDT pages, enables the transceiver, runs
    /// the software reset and enables the STALL, token-done and bus-reset
    /// interrupts.
    fn init(&self) -> (r: Vec<RegOp>) {
        let mut ops = Vec::new();
        ops.push(enable_clock(Clock::USBOTG));
        ops.push(select_usb_source(true));
        let mut hard = self.usb_reset_hard();
        ops.append(&mut hard);
        let addr = self.bdt;
        ops.push(RegOp::Write8 { addr: USB_BDTPAGE1, value: (addr >> 8) as u8 });
        ops.push(RegOp::Write8 { addr: USB_BDTPAGE2, value: (addr >> 16) as u8 });
        ops.push(RegOp::Write8 { addr: USB_BDTPAGE3, value: (addr >> 24) as u8 });
        ops.push(RegOp::Write8 { addr: USB_USBCTRL, value: 0x00 });
        let mut reset = self.reset();
        ops.append(&mut reset);
        let ints = UsbInt::STALLEN.bits() | UsbInt::TOKDNEEN.bits() | UsbInt::USBRSTEN.bits();
        ops.push(self.set_interrupts(ints));
        assert(ops@ =~= self@.init_ops());
        ops
    }

    /// Enables the pull-up of D+.
    fn attach(&self) -> (r: Vec<RegOp>) {
        let mut ops = Vec::new();
        ops.push(RegOp::Set8 { addr: USB_CONTROL, mask: 0x10 });
        ops
    }

    /// Disables and suspends the block, clears its status flags, zeroes the
    /// BDT, resets the device address and enables the block.
    fn reset(&self) -> (r: Vec<RegOp>) {
        let mut ops = Vec::new();
        ops.push(RegOp::Set8 { addr: USB_CTL, mask: 0x22 });
        ops.push(RegOp::Write8 { addr: USB_ISTAT, value: 0xFF });
        ops.push(RegOp::Write8 { addr: USB_ERRSTAT, value: 0xFF });
        ops.push(RegOp::Write8 { addr: USB_OTGISTAT, value: 0xFF });
        let len: u32 = if self.max_ep > 15 {
            BDT_SIZE
        } else {
            (self.max_ep as u32) * 32
        };
        ops.push(RegOp::Zero { addr: self.bdt, len });
        let mut address = self.set_address(0x00);
        ops.append(&mut address);
        ops.push(RegOp::Write8 { addr: USB_CTL, value: 0x01 });
        assert(ops@ =~= self@.reset_ops());
        ops
    }

    fn max_endpoints(&self) -> (r: usize) {
        16
    }

    /// Hands the next packet of `stream` to the BDT entry that the
    /// endpoint's ping-pong bit selects, then flips that bit.
    fn queue_next(&mut self, ep: usize, is_tx: bool, stream: &StreamHandler) -> (r: Vec<RegOp>) {
        let ping_index = ep * 2 + if is_tx {
            1
        } else {
            0
        };
        let odd = self.ping[ping_index];
        let mut ops = Vec::new();
        ops.push(RegOp::HaltIfSet32 { addr: self.bdt_entry_addr(ep, is_tx, odd), mask: 0x80 });
        let addr = stream.address();
        ops.push(self.set_bdt_address(ep, is_tx, odd, addr));
        let len = stream.len();
        let data1: u32 = if stream.data1() {
            1
        } else {
            0
        };
        let val = ((((len & 0x3FF) as u32) << 16) | 0x88) | (data1 << 6);
        ops.push(self.set_bdt_setting(ep, is_tx, odd, val));
        self.ping[ping_index] = !odd;
        assert(ops@ =~= old(self)@.queue_next_ops(ep, is_tx, stream@));
        assert(self@.ping =~= old(self)@.after_queue(ep, is_tx).ping);
        ops
    }

    fn set_address(&self, addr: u8) -> (r: Vec<RegOp>) {
        let mut ops = Vec::new();
        ops.push(RegOp::Write8 { addr: USB_ADDR, value: addr });
        ops
    }

    /// Writes the endpoint's control register for its transfer kind.
    fn ep_enable(&self, ep: usize, typ: EndpointType) -> (r: Vec<RegOp>) {
        let val: u8 = match typ {
            EndpointType::Control => 0x0D,
            EndpointType::TxOnly => 0x15,
            EndpointType::RxOnly => 0x19,
            EndpointType::TxRx => 0x1D,
            EndpointType::IsochronousTx => 0x14,
            EndpointType::IsochronousRx => 0x18,
        };
        let addr = USB_ENDPT0 + (ep as u32) * 4;
        let mut ops = Vec::new();
        ops.push(RegOp::Write8 { addr, value: val });
        ops
    }

    /// Sets the STALL flag of the endpoint's control register; an
    /// endpoint beyond the last is left alone.
    fn ep_stall(&self, ep: usize) -> (r: Vec<RegOp>) {
        let mut ops = Vec::new();
        if ep <= 15 {
            ops.push(RegOp::Set8 { addr: USB_ENDPT0 + (ep as u32) * 4, mask: ENDPT_STALL });
        }
        ops
    }

    /// Clears the STALL flag of the endpoint's control register; an
    /// endpoint beyond the last is left alone.
    fn ep_unstall(&self, ep: usize) -> (r: Vec<RegOp>) {
        let mut ops = Vec::new();
        if ep <= 15 {
            ops.push(RegOp::Clear8 { addr: USB_ENDPT0 + (ep as u32) * 4, mask: ENDPT_STALL });
        }
        ops
    }
}

/// The interrupt sources that the interrupt status register reports.
#[derive(PartialEq, Eq, Structural, Debug, Clone, Copy)]
pub struct IrqStatus {
    /// A bus reset was detected.
    pub reset: bool,
    /// A STALL handshake was sent.
    pub stall: bool,
    /// A token completed.
    pub token_done: bool,
}

/// Decodes the interrupt status register.
pub fn irq_status(istat: u8) -> (r: IrqStatus)
    ensures
        r.reset == (istat & 0x01 != 0),
        r.stall == (istat & 0x80 != 0),
        r.token_done == (istat & 0x08 != 0),
{
    IrqStatus { reset: istat & 0x01 > 0, stall: istat & 0x80 > 0, token_done: istat & 0x08 > 0 }
}

/// The BDT entry that the status register names for a completed token.
#[derive(PartialEq, Eq, Structural, Debug, Clone, Copy)]
pub struct TokenStatus {
    pub ep: usize,
    pub is_tx: bool,
    pub is_odd: bool,
}

/// Decodes the status register: the endpoint in bits 4 to 7, the direction
/// in bit 3 and the even or odd buffer in bit 2.
pub fn token_status(stat: u8) -> (r: TokenStatus)
    ensures
        r.ep == (stat >> 4u8) as usize,
        r.is_tx == (stat & 0x08 != 0),
        r.is_odd == (stat & 0x04 != 0),
        r.ep < 16,
{
    assert(stat >> 4u8 < 16) by (bit_vector);
    TokenStatus { ep: (stat >> 4) as usize, is_tx: stat & 0x08 > 0, is_odd: stat & 0x04 > 0 }
}

/// What the USB block left in the control word of a BDT entry.
#[derive(PartialEq, Eq, Structural, Debug, Clone, Copy)]
pub struct BdtStatus {
    /// PID of the token, in bits 2 to 5.
    pub pid: usize,
    /// Byte count, in bits 16 to 25.
    pub len: usize,
}

/// Decodes the control word of a BDT entry.
pub fn bdt_status(bdt_info: u32) -> (r: BdtStatus)
    ensures
        r.pid == ((bdt_info >> 2u32) & 0x0F) as usize,
        r.len == ((bdt_info >> 16u32) & 0x3FF) as usize,
        r.pid < 16,
        r.len < 1024,
{
    assert((bdt_info >> 2u32) & 0x0F < 16 && (bdt_info >> 16u32) & 0x3FF < 1024) by (bit_vector);
    BdtStatus { pid: ((bdt_info >> 2) & 0x0F) as usize, len: ((bdt_info >> 16) & 0x3FF) as usize }
}

/// PID code of a SETUP token, after which the block pauses token
/// processing.
pub const PID_SETUP: usize = 0x0D;

/// Accesses after a completed token: a SETUP token paused the block, so
/// token processing resumes; any other token needs nothing.
pub fn resume_after_token(pid: usize) -> (r: Vec<RegOp>)
    ensures
        pid == PID_SETUP ==> r@ == seq![RegOp::Write8 { addr: USB_CTL, value: 0x01 }],
        pid != PID_SETUP ==> r@ == Seq::<RegOp>::empty(),
{
    let mut ops = Vec::new();
    if pid == PID_SETUP {
        ops.push(RegOp::Write8 { addr: USB_CTL, value: 0x01 });
    }
    ops
}

/// Access that clears the interrupt flags `istat` that were handled.
pub fn ack_interrupts(istat: u8) -> (r: RegOp)
    ensures
        r == (RegOp::Write8 { addr: USB_ISTAT, value: istat }),
{
    RegOp::Write8 { addr: USB_ISTAT, value: istat }
}

/// What [`bdt_status`] reads back from a control word that a queued packet
/// wrote: the byte count (modulo 1024), the OWN bit that hands the entry to
/// the USB block, and the data toggle.
pub proof fn lemma_bdt_word_round_trip(len: usize, data1: bool)
    ensures
        (bdt_control_word(len, data1) >> 16u32) & 0x3FF == (len & 0x3FF) as u32,
        bdt_control_word(len, data1) & 0x80 != 0,
        bdt_control_word(len, data1) & 0x08 != 0,
        ((bdt_control_word(len, data1) >> 6u32) & 1 == 1) == data1,
{
    let l: u32 = (len & 0x3FF) as u32;
    let d: u32 = if data1 {
        1
    } else {
        0
    };
    assert(l < 1024) by (bit_vector)
        requires
            l == (len & 0x3FF) as u32,
    ;
    assert(((((l << 16u32) | 0x88u32) | (d << 6u32)) >> 16u32) & 0x3FF == l) by (bit_vector)
        requires
            l < 1024,
            d <= 1,
    ;
    assert((((l << 16u32) | 0x88u32) | (d << 6u32)) & 0x80 != 0) by (bit_vector);
    assert((((l << 16u32) | 0x88u32) | (d << 6u32)) & 0x08 != 0) by (bit_vector);
    assert((((((l << 16u32) | 0x88u32) | (d << 6u32)) >> 6u32) & 1 == 1) == (d == 1)) by (bit_vector)
        requires
            d <= 1,
    ;
}

/// The status register names the BDT entry of a completed token by its
/// index: the entry's offset is eight times the register shifted right by
/// two, so the entry read back is the one the packet was queued in.
pub proof fn lemma_stat_names_entry(stat: u8)
    ensures
        bdt_offset((stat >> 4u8) as int, stat & 0x08 != 0, stat & 0x04 != 0) == 8 * ((stat
            >> 2u8) as int),
{
    let s = stat as u32;
    assert(32 * (s >> 4u32) + (if s & 8 != 0 {
        16u32
    } else {
        0u32
    }) + (if s & 4 != 0 {
        8u32
    } else {
        0u32
    }) == 8 * (s >> 2u32)) by (bit_vector)
        requires
            s < 256,
    ;
    assert((s >> 4u32) == (stat >> 4u8) as u32 && (s >> 2u32) == (stat >> 2u8) as u32 && (s & 8
        != 0) == (stat & 0x08 != 0) && (s & 4 != 0) == (stat & 0x04 != 0)) by (bit_vector)
        requires
            s == stat as u32,
    ;
}

/// The BDT entries of distinct endpoints, directions and buffers never
/// overlap, and all of them lie inside the table.
pub proof fn lemma_bdt_entries_disjoint(
    ep1: usize,
    tx1: bool,
    odd1: bool,
    ep2: usize,
    tx2: bool,
    odd2: bool,
)
    requires
        ep1 < 16,
        ep2 < 16,
        (ep1, tx1, odd1) != (ep2, tx2, odd2),
    ensures
        bdt_offset(ep1 as int, tx1, odd1) + 8 <= bdt_offset(ep2 as int, tx2, odd2) || bdt_offset(
            ep2 as int,
            tx2,
            odd2,
        ) + 8 <= bdt_offset(ep1 as int, tx1, odd1),
        0 <= bdt_offset(ep1 as int, tx1, odd1),
        bdt_offset(ep1 as int, tx1, odd1) + 8 <= BDT_SIZE,
{
}

/// Queuing packets on one endpoint and direction alternates between its
/// even and odd BDT entries: two queuings bring the ping-pong table back,
/// and no other endpoint or direction is touched.
pub proof fn lemma_ping_pong(s: FreescaleState, ep: usize, is_tx: bool, ep2: usize, tx2: bool)
    requires
        s.ping.len() == 32,
        ep < 16,
        ep2 < 16,
        (ep, is_tx) != (ep2, tx2),
    ensures
        s.after_queue(ep, is_tx).next_odd(ep, is_tx) == !s.next_odd(ep, is_tx),
        s.after_queue(ep, is_tx).after_queue(ep, is_tx) == s,
        s.after_queue(ep, is_tx).next_odd(ep2, tx2) == s.next_odd(ep2, tx2),
{
    let i = FreescaleState::ping_index(ep, is_tx);
    assert(s.after_queue(ep, is_tx).after_queue(ep, is_tx).ping =~= s.ping);
}

/// Whether endpoints of this kind transmit.
pub open spec fn transmits(typ: EndpointType) -> bool {
    match typ {
        EndpointType::Control | EndpointType::TxOnly | EndpointType::TxRx
        | EndpointType::IsochronousTx => true,
        _ => false,
    }
}

/// Whether endpoints of this kind receive.
pub open spec fn receives(typ: EndpointType) -> bool {
    match typ {
        EndpointType::Control | EndpointType::RxOnly | EndpointType::TxRx
        | EndpointType::IsochronousRx => true,
        _ => false,
    }
}

/// Whether endpoints of this kind are isochronous.
pub open spec fn isochronous(typ: EndpointType) -> bool {
    typ == EndpointType::IsochronousTx || typ == EndpointType::IsochronousRx
}

/// The endpoint control value of each kind says what the kind is: it
/// handshakes unless isochronous, transmits and receives as the kind does,
/// takes control transfers only for the control kind, and never stalls the
/// endpoint.  Each endpoint has a register of its own.
pub proof fn lemma_endpoint_config(typ: EndpointType, ep: usize, ep2: usize)
    requires
        ep < 16,
        ep2 < 16,
        ep != ep2,
    ensures
        (endpoint_config(typ) & 0x01 != 0) == !isochronous(typ),
        endpoint_config(typ) & 0x02 == 0,
        (endpoint_config(typ) & 0x04 != 0) == transmits(typ),
        (endpoint_config(typ) & 0x08 != 0) == receives(typ),
        (endpoint_config(typ) & 0x10 != 0) == (typ != EndpointType::Control),
        endpoint_register(ep) != endpoint_register(ep2),
{
    let v = endpoint_config(typ);
    let h: u8 = if isochronous(typ) {
        0
    } else {
        1
    };
    let t: u8 = if transmits(typ) {
        1
    } else {
        0
    };
    let r: u8 = if receives(typ) {
        1
    } else {
        0
    };
    let c: u8 = if typ == EndpointType::Control {
        0
    } else {
        1
    };
    assert(v == h + 4 * t + 8 * r + 16 * c);
    assert((v & 0x01 != 0) == (h == 1) && v & 0x02 == 0 && (v & 0x04 != 0) == (t == 1) && (v & 0x08
        != 0) == (r == 1) && (v & 0x10 != 0) == (c == 1)) by (bit_vector)
        requires
            v == h + 4 * t + 8 * r + 16 * c,
            h <= 1,
            t <= 1,
            r <= 1,
            c <= 1,
    ;
}

/// The interrupts enabled at start-up are exactly those the handler acts
/// on: bus reset, token done and STALL.
pub proof fn lemma_enabled_interrupts()
    ensures
        enabled_interrupts() & UsbInt::USBRSTEN.bits_spec() != 0,
        enabled_interrupts() & UsbInt::TOKDNEEN.bits_spec() != 0,
        enabled_interrupts() & UsbInt::STALLEN.bits_spec() != 0,
        enabled_interrupts() & (UsbInt::ERROREN.bits_spec() | UsbInt::SOFTOKEN.bits_spec()
            | UsbInt::SLEEPEN.bits_spec() | UsbInt::RESUMEEN.bits_spec()
            | UsbInt::ATTACHEN.bits_spec()) == 0,
{
    assert(0x80u8 | 0x08u8 | 0x01u8 == 0x89u8) by (bit_vector);
    assert(0x89u8 & 0x01u8 != 0 && 0x89u8 & 0x08u8 != 0 && 0x89u8 & 0x80u8 != 0) by (bit_vector);
    assert(0x89u8 & (0x02u8 | 0x04u8 | 0x10u8 | 0x20u8 | 0x40u8) == 0) by (bit_vector);
}

/// After a bus reset, endpoint 0 hands its whole setup buffer to the USB
/// block: the entry the ping-pong bit selects gets the buffer's address and
/// a control word that gives the block the entry, for 64 bytes of DATA0.
pub proof fn lemma_reset_arms_setup_buffer(s: FreescaleState, h: Ep0State)
    requires
        h.rx_stream.max_packet >= EP0_BUF_LEN,
    ensures
        ({
            let entry = s.entry_addr(0, false, s.next_odd(0, false));
            let ops = s.queue_next_ops(0, false, h.armed().rx_stream);
            &&& ops[1] == (RegOp::Write32 { addr: (entry + 4) as u32, value: h.buf_addr })
            &&& ops[2] == (RegOp::Write32 { addr: entry, value: bdt_control_word(64, false) })
            &&& (bdt_control_word(64, false) >> 16u32) & 0x3FF == 64
            &&& bdt_control_word(64, false) & 0x80 != 0
            &&& (bdt_control_word(64, false) >> 6u32) & 1 != 1
        }),
{
    lemma_bdt_word_round_trip(64, false);
    assert(64usize & 0x3FF == 64) by (bit_vector);
    assert(h.armed().rx_stream.packet_len() == 64);
}

/// What the interrupt handler read about a completed token: the status
/// register and the control word of the BDT entry that it names.
#[derive(PartialEq, Eq, Structural, Debug, Clone, Copy)]
pub struct TokenReport {
    pub stat: u8,
    pub bdt_word: u32,
}

impl TokenReport {
    /// PID code of the token, from the BDT entry's control word.
    pub open spec fn pid(self) -> usize {
        ((self.bdt_word >> 2u32) & 0x0F) as usize
    }
}

/// Accesses after a completed token with PID code `pid`, as
/// [`resume_after_token`] returns them.
pub open spec fn resume_ops(pid: usize) -> Seq<RegOp> {
    if pid == PID_SETUP {
        seq![RegOp::Write8 { addr: USB_CTL, value: 0x01 }]
    } else {
        Seq::empty()
    }
}

impl UsbModule<FreescaleUsb> {
    /// Handles the interrupt flags `istat` of the USB block; `token` is
    /// what was read about the completed token when the token-done flag is
    /// set.  A bus reset is handled alone and its flag left set.  Otherwise a
    /// STALL is reported to the module, a completed token is handed to it
    /// (and token processing resumed after a SETUP), and the handled flags
    /// are cleared.
    pub fn on_interrupt(&mut self, istat: u8, token: Option<TokenReport>) -> (r: Vec<RegOp>)
        requires
            old(self).wf(),
            istat & 0x01 == 0 && istat & 0x08 != 0 ==> token is Some,
        ensures
            istat & 0x01 != 0 ==> {
                &&& r@ == old(self)@.peripheral.reset_ops() + old(self)@.peripheral.ep_enable_ops(
                    0,
                    EndpointType::Control,
                ) + old(self)@.peripheral.queue_next_ops(
                    0,
                    false,
                    old(self)@.handler.armed().rx_stream,
                )
                &&& old(self)@.peripheral.queued(0, false, final(self)@.peripheral)
                &&& final(self)@.handler == old(self)@.handler.armed()
                &&& final(self)@.state == UsbState::Default
            },
            istat & 0x01 == 0 && istat & 0x08 != 0 ==> {
                let t = token->0;
                &&& r@ == (stall_ops(old(self)@.peripheral, istat) + resume_ops(t.pid())).push(
                    RegOp::Write8 { addr: USB_ISTAT, value: istat },
                )
                &&& final(self)@ == old(self)@
            },
            istat & 0x01 == 0 && istat & 0x08 == 0 ==> {
                &&& r@ == stall_ops(old(self)@.peripheral, istat).push(
                    RegOp::Write8 { addr: USB_ISTAT, value: istat },
                )
                &&& final(self)@ == old(self)@
            },
            final(self).wf(),
    {
        let irq = irq_status(istat);
        if irq.reset {
            return self.on_reset();
        }
        let mut ops = Vec::new();
        if irq.stall {
            let mut unstall = self.on_stall();
            ops.append(&mut unstall);
        }
        if irq.token_done {
            match token {
                Some(report) => {
                    let t = token_status(report.stat);
                    let b = bdt_status(report.bdt_word);
                    let mut done = self.on_token(t.ep, t.is_tx, b.pid, b.len);
                    ops.append(&mut done);
                    let mut resume = resume_after_token(b.pid);
                    ops.append(&mut resume);
                },
                None => {},
            }
        }
        ops.push(ack_interrupts(istat));
        ops
    }
}

/// Accesses for the STALL flag of `istat`: endpoint 0 is made sure not to
/// stay stalled when the flag is set.
pub open spec fn stall_ops(usb: FreescaleUsb, istat: u8) -> Seq<RegOp> {
    if istat & 0x80 != 0 {
        usb.ep_unstall_ops(0)
    } else {
        Seq::empty()
    }
}

/// The three BDT page registers written at start-up hold the BDT's address:
/// bits 8 to 15, 16 to 23 and 24 to 31 of it, the low bits being zero for
/// an aligned table.
pub proof fn lemma_bdt_pages_hold_address(bdt: u32)
    requires
        bdt % BDT_SIZE == 0,
    ensures
        ((((bdt >> 24u32) as u8) as u32) << 24u32) | ((((bdt >> 16u32) as u8) as u32) << 16u32)
            | ((((bdt >> 8u32) as u8) as u32) << 8u32) == bdt,
{
    assert(((((bdt >> 24u32) as u8) as u32) << 24u32) | ((((bdt >> 16u32) as u8) as u32) << 16u32)
        | ((((bdt >> 8u32) as u8) as u32) << 8u32) == bdt) by (bit_vector)
        requires
            bdt % 512 == 0,
    ;
}

/// The STALL handling of an interrupt depends on the STALL flag (bit 7 of
/// ISTAT) alone: with it, the STALL bit of endpoint 0's control register
/// (0x4007_20C0) is cleared; without it, no access is made at all, whatever
/// other flags are set.
pub proof fn lemma_stall_follows_stall_flag(usb: FreescaleUsb, istat: u8, other: u8)
    ensures
        istat & 0x80 != 0 ==> stall_ops(usb, istat) == seq![
            RegOp::Clear8 { addr: 0x4007_20C0u32, mask: 0x02u8 },
        ],
        istat & 0x80 == 0 ==> stall_ops(usb, istat) == Seq::<RegOp>::empty(),
        istat & 0x80 == other & 0x80 ==> stall_ops(usb, istat) == stall_ops(usb, other),
{
}

/// Queuing a packet hands the stream's packet to the entry that the
/// ping-pong bit selects (entry offset 32 ep + 16 tx + 8 odd): the device
/// halts if the USB block still owns the entry, then the buffer address is
/// written, then a control word whose byte count is the stream's next packet
/// size (at most its maximum packet size), whose data toggle (bit 6) is the
/// stream's toggle, and which hands the entry to the block (OWN, bit 7) with
/// toggle synchronisation on (bit 3).
pub proof fn lemma_queue_next_hands_over_packet(
    s: FreescaleState,
    ep: usize,
    is_tx: bool,
    st: StreamState,
)
    requires
        ep < 16,
        s.ping.len() == 32,
        s.bdt <= u32::MAX - BDT_SIZE,
        st.buf is Some,
    ensures
        ({
            let ops = s.queue_next_ops(ep, is_tx, st);
            let odd = s.ping[2 * ep + if is_tx {
                1int
            } else {
                0int
            }];
            let entry = s.bdt + 32 * ep + (if is_tx {
                16int
            } else {
                0int
            }) + (if odd {
                8int
            } else {
                0int
            });
            let len = if st.max_packet < st.transfer_size {
                st.max_packet
            } else {
                st.transfer_size
            };
            &&& ops.len() == 3
            &&& ops[0] == (RegOp::HaltIfSet32 { addr: entry as u32, mask: 0x80 })
            &&& ops[1] == (RegOp::Write32 { addr: (entry + 4) as u32, value: st.buf->0 })
            &&& ops[2] is Write32
            &&& ops[2]->Write32_addr == entry
            &&& ((ops[2]->Write32_value >> 6u32) & 1 == 1) == st.data1
            &&& (ops[2]->Write32_value >> 16u32) & 0x3FF == (len & 0x3FF) as u32
            &&& ops[2]->Write32_value & 0x80 != 0
            &&& ops[2]->Write32_value & 0x08 != 0
        }),
{
    lemma_bdt_word_round_trip(st.packet_len(), st.data1);
}

/// The start-up program: the USB clock is switched on (bit 18 of SCGC4 at
/// 0x4004_8034) and taken from the internal source (bit 18 of SOPT2 at
/// 0x4004_8004); the block is hard reset through USBTRC0 and waited for;
/// the three BDT page registers get the BDT's address; the transceiver is
/// enabled; the block goes through its reset; and last the bus reset,
/// token-done and STALL interrupts (0x89) are enabled.
pub proof fn lemma_start_up_program(s: FreescaleState)
    requires
        s.bdt % BDT_SIZE == 0,
    ensures
        ({
            let ops = s.init_ops();
            &&& ops.len() == 16
            &&& ops[0] == (RegOp::Set32 { addr: 0x4004_8034, mask: 0x0004_0000 })
            &&& ops[1] == (RegOp::Set32 { addr: 0x4004_8004, mask: 0x0004_0000 })
            &&& ops[2] == (RegOp::Write8 { addr: 0x4007_210C, value: 0x80 })
            &&& ops[3] == (RegOp::WaitFor8 { addr: 0x4007_210C, mask: 0x80, value: 0x00 })
            &&& ops[4] is Write8 && ops[4]->Write8_addr == 0x4007_209C
            &&& ops[5] is Write8 && ops[5]->Write8_addr == 0x4007_20B0
            &&& ops[6] is Write8 && ops[6]->Write8_addr == 0x4007_20B4
            &&& ((ops[6]->Write8_value as u32) << 24u32) | ((ops[5]->Write8_value as u32) << 16u32)
                | ((ops[4]->Write8_value as u32) << 8u32) == s.bdt
            &&& ops[7] == (RegOp::Write8 { addr: 0x4007_2100, value: 0x00 })
            &&& ops.subrange(8, 15) == s.reset_ops()
            &&& ops[15] == (RegOp::Write8 { addr: 0x4007_2084, value: 0x89 })
        }),
{
    lemma_scgc_table(Clock::USBOTG);
    lemma_bdt_pages_hold_address(s.bdt);
    assert(1u32 << 18u32 == 0x0004_0000u32) by (bit_vector);
    assert(0x80u8 | 0x08u8 | 0x01u8 == 0x89u8) by (bit_vector);
    assert(s.init_ops().subrange(8, 15) =~= s.reset_ops());
}

/// The reset program: the block is disabled and suspended (0x22 set in CTL
/// at 0x4007_2094), the interrupt, error and OTG status flags are all
/// cleared, the part of the BDT in use is zeroed (32 bytes an endpoint, at
/// most the 512-byte table), the device address goes back to 0 and the
/// block is enabled (CTL = 0x01) last.
pub proof fn lemma_reset_program(s: FreescaleState)
    ensures
        s.reset_ops() == seq![
            RegOp::Set8 { addr: 0x4007_2094, mask: 0x22 },
            RegOp::Write8 { addr: 0x4007_2080, value: 0xFF },
            RegOp::Write8 { addr: 0x4007_2088, value: 0xFF },
            RegOp::Write8 { addr: 0x4007_2010, value: 0xFF },
            RegOp::Zero {
                addr: s.bdt,
                len: (if s.max_ep >= 16 {
                    512
                } else {
                    32 * s.max_ep
                }) as u32,
            },
            RegOp::Write8 { addr: 0x4007_2098, value: 0 },
            RegOp::Write8 { addr: 0x4007_2094, value: 0x01 },
        ],
{
}

/// Endpoint control: endpoint `ep`'s register is at 0x4007_20C0 + 4 ep;
/// enabling writes the kind's value (control 0x0D, transmit 0x15, receive
/// 0x19, both 0x1D, isochronous transmit 0x14, isochronous receive 0x18);
/// stalling sets and unstalling clears bit 1 of it, for endpoints up to 15
/// only.
pub proof fn lemma_endpoint_programs(usb: FreescaleUsb, ep: usize, typ: EndpointType)
    requires
        ep < 16,
    ensures
        usb.ep_enable_ops(ep, typ) == seq![
            RegOp::Write8 {
                addr: (0x4007_20C0 + 4 * ep) as u32,
                value: match typ {
                    EndpointType::Control => 0x0Du8,
                    EndpointType::TxOnly => 0x15u8,
                    EndpointType::RxOnly => 0x19u8,
                    EndpointType::TxRx => 0x1Du8,
                    EndpointType::IsochronousTx => 0x14u8,
                    EndpointType::IsochronousRx => 0x18u8,
                },
            },
        ],
        usb.ep_stall_ops(ep) == seq![
            RegOp::Set8 { addr: (0x4007_20C0 + 4 * ep) as u32, mask: 0x02 },
        ],
        usb.ep_unstall_ops(ep) == seq![
            RegOp::Clear8 { addr: (0x4007_20C0 + 4 * ep) as u32, mask: 0x02 },
        ],
        usb.ep_stall_ops((ep + 16) as usize) == Seq::<RegOp>::empty(),
        usb.ep_unstall_ops((ep + 16) as usize) == Seq::<RegOp>::empty(),
{
}

/// Interrupt enable bits and the SETUP resume: the sources are bits 0 to 7
/// in the order bus reset, error, SOF, token done, sleep, resume, attach,
/// STALL; token processing is resumed (CTL = 0x01) after a token exactly
/// when its PID code is that of SETUP (0b1101).
pub proof fn lemma_interrupt_bits_and_resume(pid: usize)
    ensures
        UsbInt::USBRSTEN.bits_spec() == 0x01,
        UsbInt::ERROREN.bits_spec() == 0x02,
        UsbInt::SOFTOKEN.bits_spec() == 0x04,
        UsbInt::TOKDNEEN.bits_spec() == 0x08,
        UsbInt::SLEEPEN.bits_spec() == 0x10,
        UsbInt::RESUMEEN.bits_spec() == 0x20,
        UsbInt::ATTACHEN.bits_spec() == 0x40,
        UsbInt::STALLEN.bits_spec() == 0x80,
        pid == 0b1101 ==> resume_ops(pid) == seq![RegOp::Write8 { addr: 0x4007_2094, value: 0x01 }],
        pid != 0b1101 ==> resume_ops(pid) == Seq::<RegOp>::empty(),
        PID_SETUP == TokenPid::Setup.code_spec(),
{
}

} // verus!
