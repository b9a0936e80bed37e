//! The device side of the USB protocol: token PIDs, endpoint kinds, the
//! device state machine, the interface that a USB peripheral offers, and
//! the bookkeeping of endpoint states.
//!
//! A peripheral does its work by register accesses; its operations return
//! them as a list of [`RegOp`], which the caller performs in order.

use vstd::prelude::*;

use crate::control::{control_ready, setup_control, Ep0Handler, Ep0State};
use crate::regs::RegOp;
use crate::stream::{StreamHandler, StreamState};

verus! {

/// Transfer kind of an endpoint.
#[derive(PartialEq, Eq, Structural, Debug, Clone, Copy)]
pub enum EndpointType {
    Control,
    TxOnly,
    RxOnly,
    TxRx,
    IsochronousTx,
    IsochronousRx,
}

/// State of the USB device state machine.
#[derive(PartialEq, Eq, Structural, Debug, Clone, Copy)]
pub enum UsbState {
    Unattached,
    Attached,
    Default,
    SetAddress,
    Address,
    Configured,
    Suspended,
}

/// Packet identifiers of USB tokens, data and handshake packets.
#[derive(PartialEq, Eq, Structural, Debug, Clone, Copy)]
pub enum TokenPid {
    Out,
    In,
    Sof,
    Setup,
    Data0,
    Data1,
    Data2,
    Mdata,
    Ack,
    Nak,
    Stall,
    Nyet,
    Pre,
    Split,
    Ping,
    Reserved,
}

impl TokenPid {
    /// The four-bit code of the PID on the wire.
    pub open spec fn code_spec(self) -> usize {
        match self {
            TokenPid::Out => 0b0001,
            TokenPid::In => 0b1001,
            TokenPid::Sof => 0b0101,
            TokenPid::Setup => 0b1101,
            TokenPid::Data0 => 0b0011,
            TokenPid::Data1 => 0b1011,
            TokenPid::Data2 => 0b0111,
            TokenPid::Mdata => 0b1111,
            TokenPid::Ack => 0b0010,
            TokenPid::Nak => 0b1010,
            TokenPid::Stall => 0b1110,
            TokenPid::Nyet => 0b0110,
            TokenPid::Pre => 0b1100,
            TokenPid::Split => 0b1000,
            TokenPid::Ping => 0b0100,
            TokenPid::Reserved => 0b0000,
        }
    }

    /// The four-bit code of the PID on the wire.
    pub fn code(&self) -> (r: usize)
        ensures
            r == self.code_spec(),
    {
        match self {
            TokenPid::Out => 0b0001,
            TokenPid::In => 0b1001,
            TokenPid::Sof => 0b0101,
            TokenPid::Setup => 0b1101,
            TokenPid::Data0 => 0b0011,
            TokenPid::Data1 => 0b1011,
            TokenPid::Data2 => 0b0111,
            TokenPid::Mdata => 0b1111,
            TokenPid::Ack => 0b0010,
            TokenPid::Nak => 0b1010,
            TokenPid::Stall => 0b1110,
            TokenPid::Nyet => 0b0110,
            TokenPid::Pre => 0b1100,
            TokenPid::Split => 0b1000,
            TokenPid::Ping => 0b0100,
            TokenPid::Reserved => 0b0000,
        }
    }

    /// The PID whose code is `n`, if any.
    pub open spec fn from_code(n: usize) -> Option<TokenPid> {
        if n == 0b0001 {
            Some(TokenPid::Out)
        } else if n == 0b1001 {
            Some(TokenPid::In)
        } else if n == 0b0101 {
            Some(TokenPid::Sof)
        } else if n == 0b1101 {
            Some(TokenPid::Setup)
        } else if n == 0b0011 {
            Some(TokenPid::Data0)
        } else if n == 0b1011 {
            Some(TokenPid::Data1)
        } else if n == 0b0111 {
            Some(TokenPid::Data2)
        } else if n == 0b1111 {
            Some(TokenPid::Mdata)
        } else if n == 0b0010 {
            Some(TokenPid::Ack)
        } else if n == 0b1010 {
            Some(TokenPid::Nak)
        } else if n == 0b1110 {
            Some(TokenPid::Stall)
        } else if n == 0b0110 {
            Some(TokenPid::Nyet)
        } else if n == 0b1100 {
            Some(TokenPid::Pre)
        } else if n == 0b1000 {
            Some(TokenPid::Split)
        } else if n == 0b0100 {
            Some(TokenPid::Ping)
        } else if n == 0b0000 {
            Some(TokenPid::Reserved)
        } else {
            None
        }
    }

    /// The PID whose code is `n`, if any.
    pub fn from_uint(n: usize) -> (r: Option<TokenPid>)
        ensures
            r == TokenPid::from_code(n),
    {
        if n == 0b0001 {
            Some(TokenPid::Out)
        } else if n == 0b1001 {
            Some(TokenPid::In)
        } else if n == 0b0101 {
            Some(TokenPid::Sof)
        } else if n == 0b1101 {
            Some(TokenPid::Setup)
        } else if n == 0b0011 {
            Some(TokenPid::Data0)
        } else if n == 0b1011 {
            Some(TokenPid::Data1)
        } else if n == 0b0111 {
            Some(TokenPid::Data2)
        } else if n == 0b1111 {
            Some(TokenPid::Mdata)
        } else if n == 0b0010 {
            Some(TokenPid::Ack)
        } else if n == 0b1010 {
            Some(TokenPid::Nak)
        } else if n == 0b1110 {
            Some(TokenPid::Stall)
        } else if n == 0b0110 {
            Some(TokenPid::Nyet)
        } else if n == 0b1100 {
            Some(TokenPid::Pre)
        } else if n == 0b1000 {
            Some(TokenPid::Split)
        } else if n == 0b0100 {
            Some(TokenPid::Ping)
        } else if n == 0b0000 {
            Some(TokenPid::Reserved)
        } else {
            None
        }
    }
}

/// Every four-bit value names exactly one PID, and no other value names
/// one: decoding a PID's code gives the PID back.
pub proof fn lemma_pid_codes(p: TokenPid, n: usize)
    ensures
        p.code_spec() < 16,
        TokenPid::from_code(p.code_spec()) == Some(p),
        TokenPid::from_code(n) is Some <==> n < 16,
        TokenPid::from_code(n) matches Some(q) ==> q.code_spec() == n,
{
}

/// The PIDs carry the four-bit codes of the USB specification, and each
/// code is read back as its PID.
pub proof fn lemma_pid_wire_codes()
    ensures
        TokenPid::Out.code_spec() == 0b0001,
        TokenPid::from_code(0b0001) == Some(TokenPid::Out),
        TokenPid::In.code_spec() == 0b1001,
        TokenPid::from_code(0b1001) == Some(TokenPid::In),
        TokenPid::Sof.code_spec() == 0b0101,
        TokenPid::from_code(0b0101) == Some(TokenPid::Sof),
        TokenPid::Setup.code_spec() == 0b1101,
        TokenPid::from_code(0b1101) == Some(TokenPid::Setup),
        TokenPid::Data0.code_spec() == 0b0011,
        TokenPid::from_code(0b0011) == Some(TokenPid::Data0),
        TokenPid::Data1.code_spec() == 0b1011,
        TokenPid::from_code(0b1011) == Some(TokenPid::Data1),
        TokenPid::Data2.code_spec() == 0b0111,
        TokenPid::from_code(0b0111) == Some(TokenPid::Data2),
        TokenPid::Mdata.code_spec() == 0b1111,
        TokenPid::from_code(0b1111) == Some(TokenPid::Mdata),
        TokenPid::Ack.code_spec() == 0b0010,
        TokenPid::from_code(0b0010) == Some(TokenPid::Ack),
        TokenPid::Nak.code_spec() == 0b1010,
        TokenPid::from_code(0b1010) == Some(TokenPid::Nak),
        TokenPid::Stall.code_spec() == 0b1110,
        TokenPid::from_code(0b1110) == Some(TokenPid::Stall),
        TokenPid::Nyet.code_spec() == 0b0110,
        TokenPid::from_code(0b0110) == Some(TokenPid::Nyet),
        TokenPid::Pre.code_spec() == 0b1100,
        TokenPid::from_code(0b1100) == Some(TokenPid::Pre),
        TokenPid::Split.code_spec() == 0b1000,
        TokenPid::from_code(0b1000) == Some(TokenPid::Split),
        TokenPid::Ping.code_spec() == 0b0100,
        TokenPid::from_code(0b0100) == Some(TokenPid::Ping),
        TokenPid::Reserved.code_spec() == 0b0000,
        TokenPid::from_code(0b0000) == Some(TokenPid::Reserved),
{
}

/// What a USB peripheral does for the device stack.  Each operation
/// returns the register accesses that perform it, in order.
pub trait UsbPeripheral: Sized {
    /// Whether the peripheral's state is well formed.
    spec fn inv(&self) -> bool;

    /// Number of endpoints the peripheral has.
    spec fn endpoint_limit(&self) -> usize;

    /// Accesses that bring the peripheral up.
    spec fn init_ops(&self) -> Seq<RegOp>;

    /// Accesses that attach the device to the bus.
    spec fn attach_ops(&self) -> Seq<RegOp>;

    /// Accesses that return the peripheral to its default state.
    spec fn reset_ops(&self) -> Seq<RegOp>;

    /// Accesses that hand the next packet of `stream` on endpoint `ep` to
    /// the peripheral.
    spec fn queue_next_ops(&self, ep: usize, is_tx: bool, stream: StreamState) -> Seq<RegOp>;

    /// Whether `next` is this peripheral after a packet was queued on
    /// endpoint `ep` in the given direction.
    spec fn queued(&self, ep: usize, is_tx: bool, next: Self) -> bool;

    /// Accesses that give the device the bus address `addr`.
    spec fn set_address_ops(&self, addr: u8) -> Seq<RegOp>;

    /// Accesses that enable endpoint `ep` for transfers of kind `typ`.
    spec fn ep_enable_ops(&self, ep: usize, typ: EndpointType) -> Seq<RegOp>;

    /// Accesses that stall endpoint `ep`.
    spec fn ep_stall_ops(&self, ep: usize) -> Seq<RegOp>;

    /// Accesses that clear the stall of endpoint `ep`.
    spec fn ep_unstall_ops(&self, ep: usize) -> Seq<RegOp>;

    /// Brings the peripheral up.
    fn init(&self) -> (r: Vec<RegOp>)
        requires
            self.inv(),
        ensures
            r@ == self.init_ops(),
    ;

    /// Attaches the device to the bus.
    fn attach(&self) -> (r: Vec<RegOp>)
        requires
            self.inv(),
        ensures
            r@ == self.attach_ops(),
    ;

    /// Returns the peripheral to its default state.
    fn reset(&self) -> (r: Vec<RegOp>)
        requires
            self.inv(),
        ensures
            r@ == self.reset_ops(),
    ;

    /// Number of endpoints the peripheral has.
    fn max_endpoints(&self) -> (r: usize)
        ensures
            r == self.endpoint_limit(),
    ;

    /// Hands the next packet of `stream` on endpoint `ep` to the peripheral.
    fn queue_next(&mut self, ep: usize, is_tx: bool, stream: &StreamHandler) -> (r: Vec<RegOp>)
        requires
            old(self).inv(),
            ep < old(self).endpoint_limit(),
            stream@.buf is Some,
        ensures
            r@ == old(self).queue_next_ops(ep, is_tx, stream@),
            old(self).queued(ep, is_tx, *final(self)),
            final(self).inv(),
            final(self).endpoint_limit() == old(self).endpoint_limit(),
    ;

    /// Gives the device the bus address `addr`.
    fn set_address(&self, addr: u8) -> (r: Vec<RegOp>)
        requires
            self.inv(),
        ensures
            r@ == self.set_address_ops(addr),
    ;

    /// Enables endpoint `ep` for transfers of kind `typ`.
    fn ep_enable(&self, ep: usize, typ: EndpointType) -> (r: Vec<RegOp>)
        requires
            self.inv(),
            ep < self.endpoint_limit(),
        ensures
            r@ == self.ep_enable_ops(ep, typ),
    ;

    /// Stalls endpoint `ep`.
    fn ep_stall(&self, ep: usize) -> (r: Vec<RegOp>)
        requires
            self.inv(),
        ensures
            r@ == self.ep_stall_ops(ep),
    ;

    /// Clears the stall of endpoint `ep`.
    fn ep_unstall(&self, ep: usize) -> (r: Vec<RegOp>)
        requires
            self.inv(),
        ensures
            r@ == self.ep_unstall_ops(ep),
    ;
}

/// What an endpoint handler does when the bus resets and when a token for
/// its endpoint completes.
pub trait EndpointHandler {
    /// Prepares the endpoint after a bus reset.
    fn on_reset<P: UsbPeripheral>(&mut self, peripheral: &mut P) -> (r: Vec<RegOp>)
        requires
            old(peripheral).inv(),
            0 < old(peripheral).endpoint_limit(),
        ensures
            final(peripheral).inv(),
            final(peripheral).endpoint_limit() == old(peripheral).endpoint_limit(),
    ;

    /// Handles a completed token addressed to the endpoint.
    fn on_token<P: UsbPeripheral>(
        &mut self,
        peripheral: &mut P,
        ep: usize,
        is_tx: bool,
        pid: TokenPid,
        len: usize,
    ) -> (r: Vec<RegOp>)
        requires
            old(peripheral).inv(),
        ensures
            final(peripheral).inv(),
            final(peripheral).endpoint_limit() == old(peripheral).endpoint_limit(),
    ;
}

/// What a [`UsbModule`] holds, as values.
pub struct ModuleState<P> {
    pub peripheral: P,
    pub state: UsbState,
    pub handler: Ep0State,
}

/// The device stack: a peripheral, the device state and the handler of
/// endpoint 0.
pub struct UsbModule<P: UsbPeripheral> {
    peripheral: P,
    state: UsbState,
    handler: Ep0Handler,
}

impl<P: UsbPeripheral> View for UsbModule<P> {
    type V = ModuleState<P>;

    closed spec fn view(&self) -> ModuleState<P> {
        ModuleState { peripheral: self.peripheral, state: self.state, handler: self.handler@ }
    }
}

/// Maximum packet size of endpoint 0.
pub const EP0_MAX_PACKET: usize = 64;

/// A transmission hands the whole buffer to the stream, from its start,
/// with the requested data toggle, in packets of at most 64 bytes.
pub proof fn lemma_tx_stream(buf_addr: u32, buf_len: usize, data1: bool)
    ensures
        tx_stream(buf_addr, buf_len, data1).buf == Some(buf_addr),
        tx_stream(buf_addr, buf_len, data1).transfer_size == buf_len,
        tx_stream(buf_addr, buf_len, data1).position == 0,
        tx_stream(buf_addr, buf_len, data1).data1 == data1,
        tx_stream(buf_addr, buf_len, data1).packet_len() == if buf_len < 64 {
            buf_len
        } else {
            64
        },
{
}

impl<P: UsbPeripheral> UsbModule<P> {
    /// The module is usable: its peripheral is well formed and has
    /// endpoint 0.
    pub open spec fn wf(&self) -> bool {
        &&& self@.peripheral.inv()
        &&& 0 < self@.peripheral.endpoint_limit()
    }

    /// A module on `peripheral`, not yet attached, whose endpoint 0 receives
    /// setup packets into the buffer at `ep0_buf`.
    pub fn new(peripheral: P, ep0_buf: u32) -> (r: UsbModule<P>)
        ensures
            r@ == (ModuleState {
                peripheral,
                state: UsbState::Unattached,
                handler: Ep0State::fresh(EP0_MAX_PACKET, ep0_buf),
            }),
    {
        UsbModule {
            peripheral,
            state: UsbState::Unattached,
            handler: Ep0Handler::new(EP0_MAX_PACKET, ep0_buf),
        }
    }

    /// The state of the device state machine.
    pub fn state(&self) -> (r: UsbState)
        ensures
            r == self@.state,
    {
        self.state
    }

    /// The peripheral the module drives.
    pub fn peripheral(&self) -> (r: &P)
        ensures
            *r == self@.peripheral,
    {
        &self.peripheral
    }

    /// Enables the peripheral and attaches the device to the bus.
    pub fn init(&mut self) -> (r: Vec<RegOp>)
        requires
            old(self).wf(),
        ensures
            r@ == old(self)@.peripheral.init_ops() + old(self)@.peripheral.attach_ops(),
            final(self)@ == (ModuleState { state: UsbState::Attached, ..old(self)@ }),
    {
        let mut ops = self.peripheral.init();
        let mut attach = self.peripheral.attach();
        ops.append(&mut attach);
        self.state = UsbState::Attached;
        ops
    }

    /// Reacts to a bus reset: resets the peripheral, enables endpoint 0 for
    /// control transfers and queues the reception of a setup packet,
    /// whatever endpoint 0 was doing before.
    pub fn on_reset(&mut self) -> (r: Vec<RegOp>)
        requires
            old(self).wf(),
        ensures
            r@ == old(self)@.peripheral.reset_ops() + old(self)@.peripheral.ep_enable_ops(
                0,
                EndpointType::Control,
            ) + old(self)@.peripheral.queue_next_ops(0, false, old(self)@.handler.armed().rx_stream),
            old(self)@.peripheral.queued(0, false, final(self)@.peripheral),
            final(self)@.handler == old(self)@.handler.armed(),
            final(self)@.state == UsbState::Default,
            final(self).wf(),
    {
        let mut ops = self.peripheral.reset();
        let mut ep0 = self.handler.on_reset(&mut self.peripheral);
        ops.append(&mut ep0);
        self.state = UsbState::Default;
        ops
    }

    /// Reacts to a sent STALL handshake: endpoint 0 is made sure not to
    /// stay stalled.
    pub fn on_stall(&mut self) -> (r: Vec<RegOp>)
        requires
            old(self).wf(),
        ensures
            r@ == old(self)@.peripheral.ep_unstall_ops(0),
            final(self)@ == old(self)@,
    {
        self.peripheral.ep_unstall(0)
    }

    /// Handles a completed token: a PID code that names a PID goes to the
    /// handler of endpoint 0, whose token handling does nothing yet.
    pub fn on_token(&mut self, endpoint: usize, is_tx: bool, pid: usize, length: usize) -> (r: Vec<
        RegOp,
    >)
        requires
            old(self).wf(),
        ensures
            r@ == Seq::<RegOp>::empty(),
            final(self)@ == old(self)@,
    {
        match TokenPid::from_uint(pid) {
            Some(p) => self.handler.on_token(&mut self.peripheral, endpoint, is_tx, p, length),
            None => Vec::new(),
        }
    }

    /// Enables `endpoint` for transfers of kind `transfer`.
    pub fn enable_ep(&mut self, endpoint: usize, transfer: EndpointType) -> (r: Vec<RegOp>)
        requires
            old(self).wf(),
            endpoint < old(self)@.peripheral.endpoint_limit(),
        ensures
            r@ == old(self)@.peripheral.ep_enable_ops(endpoint, transfer),
            final(self)@ == old(self)@,
    {
        self.peripheral.ep_enable(endpoint, transfer)
    }

    /// Sets the STALL flag of `endpoint`.
    pub fn stall_ep(&self, endpoint: usize) -> (r: Vec<RegOp>)
        requires
            self.wf(),
        ensures
            r@ == self@.peripheral.ep_stall_ops(endpoint),
    {
        self.peripheral.ep_stall(endpoint)
    }

    /// Prepares to receive the next packet of `stream` on `endpoint`.
    pub fn queue_rx(&mut self, endpoint: usize, stream: &StreamHandler) -> (r: Vec<RegOp>)
        requires
            old(self).wf(),
            endpoint < old(self)@.peripheral.endpoint_limit(),
            stream@.buf is Some,
        ensures
            r@ == old(self)@.peripheral.queue_next_ops(endpoint, false, stream@),
            old(self)@.peripheral.queued(endpoint, false, final(self)@.peripheral),
            final(self)@.state == old(self)@.state,
            final(self)@.handler == old(self)@.handler,
            final(self).wf(),
    {
        self.peripheral.queue_next(endpoint, false, stream)
    }

    /// Prepares to transmit the `buf_len` bytes at `buf_addr` on
    /// `endpoint`, starting with the given data toggle: a stream for the
    /// buffer (see [`tx_stream`]) is handed to the peripheral.
    pub fn queue_tx(&mut self, endpoint: usize, data1: bool, buf_addr: u32, buf_len: usize) -> (r:
        Vec<RegOp>)
        requires
            old(self).wf(),
            endpoint < old(self)@.peripheral.endpoint_limit(),
        ensures
            r@ == old(self)@.peripheral.queue_next_ops(
                endpoint,
                true,
                tx_stream(buf_addr, buf_len, data1),
            ),
            old(self)@.peripheral.queued(endpoint, true, final(self)@.peripheral),
            final(self)@.state == old(self)@.state,
            final(self)@.handler == old(self)@.handler,
            final(self).wf(),
    {
        let mut stream = StreamHandler::new(EP0_MAX_PACKET);
        stream.setup(buf_addr, buf_len, data1);
        self.peripheral.queue_next(endpoint, true, &stream)
    }
}

/// The stream that transmits the `buf_len` bytes at `buf_addr`, in packets
/// of at most [`EP0_MAX_PACKET`] bytes, starting with the given data toggle.
pub open spec fn tx_stream(buf_addr: u32, buf_len: usize, data1: bool) -> StreamState {
    StreamState {
        max_packet: EP0_MAX_PACKET,
        data1,
        buf: Some(buf_addr),
        transfer_size: buf_len,
        position: 0,
    }
}

/// Bookkeeping of one endpoint buffer.
pub struct EpState {
    pub ep: u8,
    /// Whether the buffer expects a SETUP token.
    pub is_setup: bool,
    /// Whether the next packet is a DATA1 packet.
    pub data1: bool,
    pub data: Vec<u8>,
    pub remaining: u16,
    pub max_size: u16,
}

/// Prepares endpoint 0 for the SETUP transaction of a control transfer.
fn setup(table: &mut EpTable)
    requires
        old(table).wf(),
    ensures
        final(table).wf(),
        control_ready(old(table)@, final(table)@),
{
    setup_control(table);
}

/// Handles a SETUP token of `len` bytes: a state that expects a SETUP
/// takes it as an OUT token, any other stalls its endpoint; the result is
/// the register accesses of the stall.
pub fn handle_setup<P: UsbPeripheral>(peripheral: &P, state: &mut EpState, len: u16) -> (r: Vec<
    RegOp,
>)
    requires
        peripheral.inv(),
        old(state).is_setup ==> len <= old(state).remaining,
    ensures
        r@ == if old(state).is_setup {
            Seq::<RegOp>::empty()
        } else {
            peripheral.ep_stall_ops(old(state).ep as usize)
        },
        final(state).remaining == if old(state).is_setup {
            (old(state).remaining - len) as u16
        } else {
            old(state).remaining
        },
        final(state).ep == old(state).ep,
        final(state).is_setup == old(state).is_setup,
        final(state).data1 == old(state).data1,
        final(state).data@ == old(state).data@,
        final(state).max_size == old(state).max_size,
{
    if state.is_setup {
        handle_out(state, len);
        Vec::new()
    } else {
        stall_ep(peripheral, state.ep)
    }
}

/// Handles an OUT token of `len` bytes: the bytes are taken off what
/// remains, and the next transaction is queued when few bytes remain or the
/// packet was short.
pub fn handle_out(state: &mut EpState, len: u16)
    requires
        len <= old(state).remaining,
    ensures
        final(state).remaining == old(state).remaining - len,
        final(state).ep == old(state).ep,
        final(state).is_setup == old(state).is_setup,
        final(state).data1 == old(state).data1,
        final(state).data@ == old(state).data@,
        final(state).max_size == old(state).max_size,
{
    state.remaining = state.remaining - len;
    if state.remaining <= 9 || len < state.max_size {
        queue_next(state);
    }
}

/// Handles an IN token; nothing is done yet.
fn handle_in(state: &mut EpState, len: u16)
    ensures
        *final(state) == *old(state),
{
}

/// Sets up `state` to receive `len` bytes into `buf` with the next OUT or
/// SETUP token.
pub fn prepare_out(state: &mut EpState, buf: Vec<u8>, len: u16)
    ensures
        final(state).data@ == buf@,
        final(state).remaining == len,
        final(state).ep == old(state).ep,
        final(state).is_setup == old(state).is_setup,
        final(state).data1 == old(state).data1,
        final(state).max_size == old(state).max_size,
{
    state.data = buf;
    state.remaining = len;
}

/// Hands the next transaction of `state` to the peripheral; nothing is
/// done yet.
fn queue_next(state: &mut EpState)
    ensures
        *final(state) == *old(state),
{
}

/// Number of endpoints that have buffer states.
pub const NUM_ENDPOINTS: usize = 16;

/// Index of the state of endpoint `ep`'s buffer for the given direction and
/// even or odd buffer.
pub open spec fn ep_index(ep: int, tx: bool, odd: bool) -> int {
    4 * ep + (if tx {
        2int
    } else {
        0int
    }) + (if odd {
        1int
    } else {
        0int
    })
}

/// Each endpoint buffer has a state of its own: distinct endpoints,
/// directions or buffers never share an index, every index lies in the
/// table, and the four states of endpoint `ep` are those at 4 ep to 4 ep + 3.
pub proof fn lemma_ep_index_layout(ep: u8, tx: bool, odd: bool, ep2: u8, tx2: bool, odd2: bool)
    requires
        ep < NUM_ENDPOINTS,
        ep2 < NUM_ENDPOINTS,
        (ep, tx, odd) != (ep2, tx2, odd2),
    ensures
        ep_index(ep as int, tx, odd) != ep_index(ep2 as int, tx2, odd2),
        0 <= ep_index(ep as int, tx, odd) < 4 * NUM_ENDPOINTS,
        ep_index(ep as int, tx, odd) / 4 == ep,
{
}

/// The buffer states of all endpoints: four per endpoint (receive and
/// transmit, even and odd buffer).
pub struct EpTable {
    states: Vec<EpState>,
}

impl View for EpTable {
    type V = Seq<EpState>;

    closed spec fn view(&self) -> Seq<EpState> {
        self.states@
    }
}

impl EpTable {
    /// Each endpoint has its four states, in [`ep_index`] order.
    pub open spec fn wf(&self) -> bool {
        &&& self@.len() == 4 * NUM_ENDPOINTS
        &&& forall|i: int| 0 <= i < self@.len() ==> #[trigger] self@[i].ep == i / 4
    }

    /// States for all endpoints, none of them expecting a SETUP, with no
    /// buffer and packets of at most `max_size` bytes.
    pub fn new(max_size: u16) -> (r: EpTable)
        ensures
            r.wf(),
            forall|i: int|
                0 <= i < r@.len() ==> {
                    &&& !(#[trigger] r@[i]).is_setup
                    &&& !r@[i].data1
                    &&& r@[i].data@.len() == 0
                    &&& r@[i].remaining == 0
                    &&& r@[i].max_size == max_size
                },
    {
        let mut states: Vec<EpState> = Vec::new();
        let mut i: usize = 0;
        while i < 4 * NUM_ENDPOINTS
            invariant
                i <= 4 * NUM_ENDPOINTS,
                states@.len() == i,
                forall|k: int|
                    0 <= k < i ==> {
                        &&& (#[trigger] states@[k]).ep == k / 4
                        &&& !states@[k].is_setup
                        &&& !states@[k].data1
                        &&& states@[k].data@.len() == 0
                        &&& states@[k].remaining == 0
                        &&& states@[k].max_size == max_size
                    },
            decreases 4 * NUM_ENDPOINTS - i,
        {
            states.push(
                EpState {
                    ep: (i / 4) as u8,
                    is_setup: false,
                    data1: false,
                    data: Vec::new(),
                    remaining: 0,
                    max_size,
                },
            );
            i = i + 1;
        }
        EpTable { states }
    }
}

/// The state of endpoint `ep`'s buffer for the given direction and even or
/// odd buffer, to read and change; `None` for an endpoint beyond the last.
pub fn get_ep_state(table: &mut EpTable, ep: u8, tx: bool, odd: bool) -> (r: Option<&mut EpState>)
    requires
        old(table).wf(),
    ensures
        r is Some <==> ep < NUM_ENDPOINTS,
        ep < NUM_ENDPOINTS ==> {
            &&& *(r->0) == old(table)@[ep_index(ep as int, tx, odd)]
            &&& (r->0).ep == ep
            &&& final(table)@ == old(table)@.update(ep_index(ep as int, tx, odd), *final(r->0))
        },
        ep >= NUM_ENDPOINTS ==> final(table)@ == old(table)@,
{
    if (ep as usize) < NUM_ENDPOINTS {
        let i = 4 * (ep as usize) + (if tx {
            2
        } else {
            0
        }) + (if odd {
            1
        } else {
            0
        });
        assert(old(table)@[i as int].ep == ep);
        Some(&mut table.states[i])
    } else {
        None
    }
}

/// Handles a transaction on the buffer of endpoint `ep` for the given
/// direction and even or odd buffer: its state is looked up (an endpoint
/// beyond the last has none, which halts the device); nothing else is done
/// yet.
pub fn handle_transaction(table: &mut EpTable, ep: u8, tx: bool, odd: bool, pid: u8, len: u16)
    requires
        old(table).wf(),
        ep < NUM_ENDPOINTS,
    ensures
        final(table)@ == old(table)@,
{
    let _state = get_ep_state(table, ep, tx, odd);
}

/// Stalls endpoint `ep` through the peripheral.
fn stall_ep<P: UsbPeripheral>(peripheral: &P, ep: u8) -> (r: Vec<RegOp>)
    requires
        peripheral.inv(),
    ensures
        r@ == peripheral.ep_stall_ops(ep as usize),
{
    peripheral.ep_stall(ep as usize)
}

} // verus!
