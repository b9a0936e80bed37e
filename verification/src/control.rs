//! Endpoint 0: the control endpoint that every USB device has, and the
//! decoding of the setup packets that arrive on it.

use vstd::prelude::*;

use crate::regs::RegOp;
use crate::stream::{StreamHandler, StreamState};
use crate::usb::{
    ep_index, get_ep_state, prepare_out, EndpointHandler, EndpointType, EpState, EpTable, TokenPid,
    UsbPeripheral,
};

verus! {

/// Standard request code GET_STATUS.
pub const REQ_GET_STATUS: u8 = 0x00;
/// Standard request code CLEAR_FEATURE.
pub const REQ_CLEAR_FEATURE: u8 = 0x01;
/// Standard request code SET_FEATURE.
pub const REQ_SET_FEATURE: u8 = 0x03;
/// Standard request code SET_ADDRESS.
pub const REQ_SET_ADDRESS: u8 = 0x05;
/// Standard request code GET_DESCRIPTOR.
pub const REQ_GET_DESCRIPTOR: u8 = 0x06;
/// Standard request code SET_DESCRIPTOR.
pub const REQ_SET_DESCRIPTOR: u8 = 0x07;
/// Standard request code GET_CONFIGURATION.
pub const REQ_GET_CONFIG: u8 = 0x08;
/// Standard request code SET_CONFIGURATION.
pub const REQ_SET_CONFIG: u8 = 0x09;
/// Standard request code GET_INTERFACE.
pub const REQ_GET_INTERFACE: u8 = 0x0A;
/// Request code this stack takes for SET_INTERFACE.
pub const REQ_SET_INTERFACE: u8 = 0x11;

/// Size of the buffer that receives setup packets on endpoint 0.
pub const EP0_BUF_LEN: usize = 64;

/// What an [`Ep0Handler`] holds, as plain values.
pub struct Ep0State {
    /// Number of the endpoint.
    pub num: usize,
    /// Address of the buffer that receives setup packets.
    pub buf_addr: u32,
    /// The stream that receives into that buffer.
    pub rx_stream: StreamState,
}

impl Ep0State {
    /// A handler that has received nothing yet, for packets of at most
    /// `max_packet` bytes.
    pub open spec fn fresh(max_packet: usize, buf_addr: u32) -> Ep0State {
        Ep0State {
            num: 0,
            buf_addr,
            rx_stream: StreamState {
                max_packet,
                data1: false,
                buf: None,
                transfer_size: 0,
                position: 0,
            },
        }
    }

    /// The handler once it waits for a setup packet: its stream receives a
    /// whole buffer as DATA0.
    pub open spec fn armed(self) -> Ep0State {
        Ep0State {
            rx_stream: StreamState {
                data1: false,
                buf: Some(self.buf_addr),
                transfer_size: EP0_BUF_LEN,
                position: 0,
                ..self.rx_stream
            },
            ..self
        }
    }
}

/// Handler of the control endpoint 0.
pub struct Ep0Handler {
    num: usize,
    buf_addr: u32,
    rx_stream: StreamHandler,
}

impl View for Ep0Handler {
    type V = Ep0State;

    closed spec fn view(&self) -> Ep0State {
        Ep0State { num: self.num, buf_addr: self.buf_addr, rx_stream: self.rx_stream@ }
    }
}

impl Ep0Handler {
    /// A handler for packets of at most `max_packet` bytes that receives
    /// setup packets into the [`EP0_BUF_LEN`] bytes at `buf_addr`.
    pub fn new(max_packet: usize, buf_addr: u32) -> (r: Ep0Handler)
        ensures
            r@ == Ep0State::fresh(max_packet, buf_addr),
    {
        Ep0Handler { num: 0, buf_addr, rx_stream: StreamHandler::new(max_packet) }
    }
}

impl EndpointHandler for Ep0Handler {
    /// Enables endpoint 0 for control transfers and queues the reception of
    /// a setup packet into the handler's buffer; a reception still pending
    /// from before the reset is abandoned.
    fn on_reset<P: UsbPeripheral>(&mut self, peripheral: &mut P) -> (r: Vec<RegOp>)
        ensures
            r@ == old(peripheral).ep_enable_ops(0, EndpointType::Control)
                + old(peripheral).queue_next_ops(0, false, old(self)@.armed().rx_stream),
            old(peripheral).queued(0, false, *final(peripheral)),
            final(self)@ == old(self)@.armed(),
    {
        let mut ops = peripheral.ep_enable(0, EndpointType::Control);
        self.rx_stream.cancel();
        self.rx_stream.setup(self.buf_addr, EP0_BUF_LEN, false);
        let mut rx = peripheral.queue_next(0, false, &self.rx_stream);
        ops.append(&mut rx);
        ops
    }

    /// Handles a token addressed to endpoint 0.  The PID is to be checked
    /// against the expected stage, the token fed into the stream, and a
    /// finished transfer processed as a control transfer; none of this is
    /// done yet, so every token leaves the handler as it was.
    fn on_token<P: UsbPeripheral>(
        &mut self,
        peripheral: &mut P,
        ep: usize,
        is_tx: bool,
        pid: TokenPid,
        len: usize,
    ) -> (r: Vec<RegOp>)
        ensures
            r@ == Seq::<RegOp>::empty(),
            final(self)@ == old(self)@,
            *final(peripheral) == *old(peripheral),
    {
        Vec::new()
    }
}

/// Type field of bmRequestType.
#[derive(PartialEq, Eq, Structural, Debug, Clone, Copy)]
pub enum RequestKind {
    Standard,
    Class,
    Vendor,
    Reserved,
}

/// Recipient field of bmRequestType.
#[derive(PartialEq, Eq, Structural, Debug, Clone, Copy)]
pub enum Recipient {
    Device,
    Interface,
    Endpoint,
    Other,
    Reserved,
}

/// The request of a setup packet, by its bRequest code.
#[derive(PartialEq, Eq, Structural, Debug, Clone, Copy)]
pub enum Request {
    GetStatus,
    ClearFeature,
    SetFeature,
    SetAddress,
    GetDescriptor,
    SetDescriptor,
    GetConfig,
    SetConfig,
    GetInterface,
    SetInterface,
    /// A code this stack does not handle: the endpoint is to be stalled.
    Unsupported,
}

/// A decoded setup packet.
#[derive(PartialEq, Eq, Structural, Debug, Clone, Copy)]
pub struct ControlRequest {
    /// Whether the data stage goes to the host.
    pub dir_in: bool,
    pub kind: RequestKind,
    pub recipient: Recipient,
    pub request: Request,
}

/// The request kind of the two type bits of bmRequestType.
pub open spec fn kind_of(bits: u8) -> RequestKind {
    if bits == 0 {
        RequestKind::Standard
    } else if bits == 1 {
        RequestKind::Class
    } else if bits == 2 {
        RequestKind::Vendor
    } else {
        RequestKind::Reserved
    }
}

/// The recipient of the five recipient bits of bmRequestType.
pub open spec fn recipient_of(bits: u8) -> Recipient {
    if bits == 0 {
        Recipient::Device
    } else if bits == 1 {
        Recipient::Interface
    } else if bits == 2 {
        Recipient::Endpoint
    } else if bits == 3 {
        Recipient::Other
    } else {
        Recipient::Reserved
    }
}

/// The request named by the bRequest code `code`.
pub open spec fn request_of(code: u8) -> Request {
    if code == REQ_GET_STATUS {
        Request::GetStatus
    } else if code == REQ_CLEAR_FEATURE {
        Request::ClearFeature
    } else if code == REQ_SET_FEATURE {
        Request::SetFeature
    } else if code == REQ_SET_ADDRESS {
        Request::SetAddress
    } else if code == REQ_GET_DESCRIPTOR {
        Request::GetDescriptor
    } else if code == REQ_SET_DESCRIPTOR {
        Request::SetDescriptor
    } else if code == REQ_GET_CONFIG {
        Request::GetConfig
    } else if code == REQ_SET_CONFIG {
        Request::SetConfig
    } else if code == REQ_GET_INTERFACE {
        Request::GetInterface
    } else if code == REQ_SET_INTERFACE {
        Request::SetInterface
    } else {
        Request::Unsupported
    }
}

/// The bRequest code of a handled request.
pub open spec fn request_code(r: Request) -> u8 {
    match r {
        Request::GetStatus => REQ_GET_STATUS,
        Request::ClearFeature => REQ_CLEAR_FEATURE,
        Request::SetFeature => REQ_SET_FEATURE,
        Request::SetAddress => REQ_SET_ADDRESS,
        Request::GetDescriptor => REQ_GET_DESCRIPTOR,
        Request::SetDescriptor => REQ_SET_DESCRIPTOR,
        Request::GetConfig => REQ_GET_CONFIG,
        Request::SetConfig => REQ_SET_CONFIG,
        Request::GetInterface => REQ_GET_INTERFACE,
        Request::SetInterface => REQ_SET_INTERFACE,
        Request::Unsupported => 0xFF,
    }
}

/// The decoding of a setup packet whose first two bytes are
/// `request_type` and `request`.
pub open spec fn decode_setup(request_type: u8, request: u8) -> ControlRequest {
    ControlRequest {
        dir_in: request_type >= 0x80,
        kind: kind_of((request_type >> 5u8) & 3u8),
        recipient: recipient_of(request_type & 0x1Fu8),
        request: request_of(request),
    }
}

/// Decodes the setup packet `data` of a control transfer: direction, type
/// and recipient from bmRequestType, and the request from bRequest.
pub fn handle_control(data: Vec<u8>) -> (r: ControlRequest)
    requires
        data.len() >= 2,
    ensures
        r == decode_setup(data@[0], data@[1]),
{
    let bm_request_type = data[0];
    let bm_dir_in = bm_request_type >= 0x80;
    let bm_type = (bm_request_type >> 5) & 3;
    let bm_rcpt = bm_request_type & 0x1F;
    let kind = if bm_type == 0 {
        RequestKind::Standard
    } else if bm_type == 1 {
        RequestKind::Class
    } else if bm_type == 2 {
        RequestKind::Vendor
    } else {
        RequestKind::Reserved
    };
    let recipient = if bm_rcpt == 0 {
        Recipient::Device
    } else if bm_rcpt == 1 {
        Recipient::Interface
    } else if bm_rcpt == 2 {
        Recipient::Endpoint
    } else if bm_rcpt == 3 {
        Recipient::Other
    } else {
        Recipient::Reserved
    };
    let b_request = data[1];
    let request = if b_request == REQ_GET_STATUS {
        Request::GetStatus
    } else if b_request == REQ_CLEAR_FEATURE {
        Request::ClearFeature
    } else if b_request == REQ_SET_FEATURE {
        Request::SetFeature
    } else if b_request == REQ_SET_ADDRESS {
        Request::SetAddress
    } else if b_request == REQ_GET_DESCRIPTOR {
        Request::GetDescriptor
    } else if b_request == REQ_SET_DESCRIPTOR {
        Request::SetDescriptor
    } else if b_request == REQ_GET_CONFIG {
        Request::GetConfig
    } else if b_request == REQ_SET_CONFIG {
        Request::SetConfig
    } else if b_request == REQ_GET_INTERFACE {
        Request::GetInterface
    } else if b_request == REQ_SET_INTERFACE {
        Request::SetInterface
    } else {
        Request::Unsupported
    };
    ControlRequest { dir_in: bm_dir_in, kind, recipient, request }
}

/// Whether `after` is the table `before` with endpoint 0 ready for a SETUP
/// transaction: its receive state for the even buffer expects a SETUP
/// token as a DATA0 packet and is prepared for a packet of its maximum size
/// into a zeroed buffer; no other state differs.
pub open spec fn control_ready(before: Seq<EpState>, after: Seq<EpState>) -> bool {
    let i = ep_index(0, false, false);
    let s = after[i];
    &&& s.ep == 0
    &&& s.is_setup
    &&& !s.data1
    &&& s.remaining == before[i].max_size
    &&& s.max_size == before[i].max_size
    &&& s.data@ == Seq::new(before[i].max_size as nat, |k: int| 0u8)
    &&& after.len() == before.len()
    &&& forall|k: int| 0 <= k < before.len() && k != i ==> after[k] == before[k]
}

/// After [`setup_control`], the state of endpoint 0's receive buffer
/// expects a SETUP token as a DATA0 packet, holds a zeroed buffer of its
/// maximum size and expects that many bytes, and every other state is as it
/// was.
pub proof fn lemma_control_ready(before: Seq<EpState>, after: Seq<EpState>, k: int)
    requires
        control_ready(before, after),
    ensures
        after[0].ep == 0,
        after[0].is_setup,
        !after[0].data1,
        after[0].remaining == before[0].max_size,
        after[0].max_size == before[0].max_size,
        after[0].data@.len() == before[0].max_size,
        forall|j: int| 0 <= j < after[0].data@.len() ==> after[0].data@[j] == 0,
        1 <= k < before.len() ==> after[k] == before[k],
        after.len() == before.len(),
{
}

/// Sets up endpoint 0 to receive a SETUP transaction: its receive state
/// for the even buffer expects a SETUP token as a DATA0 packet, and is
/// prepared for a packet of its maximum size into a fresh zeroed buffer.
/// No other state changes.
pub fn setup_control(table: &mut EpTable)
    requires
        old(table).wf(),
    ensures
        final(table).wf(),
        control_ready(old(table)@, final(table)@),
{
    match get_ep_state(table, 0, false, false) {
        Some(state) => {
            // Expect a SETUP token as a DATA0 packet.
            state.is_setup = true;
            state.data1 = false;
            let len = state.max_size;
            let buf: Vec<u8> = vec![0u8; len as usize];
            prepare_out(state, buf, len);
        },
        None => {},
    }
    assert(table@[ep_index(0, false, false)].data@ =~= Seq::new(
        old(table)@[ep_index(0, false, false)].max_size as nat,
        |k: int| 0u8,
    ));
}

/// Called after the status stage of a control transfer: gets endpoint 0
/// ready for the next SETUP transaction.
fn finish_control(table: &mut EpTable, data: Vec<u8>)
    requires
        old(table).wf(),
    ensures
        final(table).wf(),
        control_ready(old(table)@, final(table)@),
{
    setup_control(table);
}

/// bmRequestType is exactly its three fields: the direction bit, the two
/// type bits and the five recipient bits, so decoding loses nothing.
pub proof fn lemma_request_type_fields(b: u8)
    ensures
        (b >> 5u8) & 3u8 < 4,
        b & 0x1Fu8 < 32,
        b as int == (if b >= 0x80 {
            0x80int
        } else {
            0int
        }) + ((b >> 5u8) & 3u8) as int * 32 + (b & 0x1Fu8) as int,
{
    assert((b >> 5u8) & 3u8 < 4 && b & 0x1Fu8 < 32) by (bit_vector);
    assert(b as int == (if b >= 0x80 {
        0x80int
    } else {
        0int
    }) + ((b >> 5u8) & 3u8) as int * 32 + (b & 0x1Fu8) as int) by (bit_vector);
}

/// Every handled request is recognised by its code, and only the ten
/// handled codes are recognised.
pub proof fn lemma_request_codes(r: Request, code: u8)
    ensures
        r != Request::Unsupported ==> request_of(request_code(r)) == r,
        request_of(code) != Request::Unsupported ==> request_code(request_of(code)) == code,
{
}

/// Each field of a decoded setup packet comes from its own bits: the
/// request from bRequest alone, the kind from bits 5 and 6 of bmRequestType
/// alone, the recipient from bits 0 to 4 alone, and the direction from bit 7.
pub proof fn lemma_setup_fields_independent(t: u8, t2: u8, q: u8, q2: u8)
    ensures
        decode_setup(t, q).request == decode_setup(t2, q).request,
        (t >> 5u8) & 3u8 == (t2 >> 5u8) & 3u8 ==> decode_setup(t, q).kind == decode_setup(
            t2,
            q2,
        ).kind,
        t & 0x1Fu8 == t2 & 0x1Fu8 ==> decode_setup(t, q).recipient == decode_setup(t2, q2).recipient,
        decode_setup(t, q).dir_in == (t & 0x80u8 != 0),
{
    assert((t >= 0x80) == (t & 0x80u8 != 0)) by (bit_vector);
}

/// The decoding table of setup packets, by the codes of the USB standard
/// (with 0x11 taken for SET_INTERFACE): bRequest names the request, bits 5
/// and 6 of bmRequestType the kind, bits 0 to 4 the recipient.
pub proof fn lemma_setup_table(t: u8, q: u8)
    ensures
        q == 0x00 ==> decode_setup(t, q).request == Request::GetStatus,
        q == 0x01 ==> decode_setup(t, q).request == Request::ClearFeature,
        q == 0x03 ==> decode_setup(t, q).request == Request::SetFeature,
        q == 0x05 ==> decode_setup(t, q).request == Request::SetAddress,
        q == 0x06 ==> decode_setup(t, q).request == Request::GetDescriptor,
        q == 0x07 ==> decode_setup(t, q).request == Request::SetDescriptor,
        q == 0x08 ==> decode_setup(t, q).request == Request::GetConfig,
        q == 0x09 ==> decode_setup(t, q).request == Request::SetConfig,
        q == 0x0A ==> decode_setup(t, q).request == Request::GetInterface,
        q == 0x11 ==> decode_setup(t, q).request == Request::SetInterface,
        (q != 0x00 && q != 0x01 && q != 0x03 && q != 0x05 && q != 0x06 && q != 0x07 && q != 0x08
            && q != 0x09 && q != 0x0A && q != 0x11) ==> decode_setup(t, q).request
            == Request::Unsupported,
        (t >> 5u8) & 3u8 == 0 ==> decode_setup(t, q).kind == RequestKind::Standard,
        (t >> 5u8) & 3u8 == 1 ==> decode_setup(t, q).kind == RequestKind::Class,
        (t >> 5u8) & 3u8 == 2 ==> decode_setup(t, q).kind == RequestKind::Vendor,
        (t >> 5u8) & 3u8 == 3 ==> decode_setup(t, q).kind == RequestKind::Reserved,
        t & 0x1Fu8 == 0 ==> decode_setup(t, q).recipient == Recipient::Device,
        t & 0x1Fu8 == 1 ==> decode_setup(t, q).recipient == Recipient::Interface,
        t & 0x1Fu8 == 2 ==> decode_setup(t, q).recipient == Recipient::Endpoint,
        t & 0x1Fu8 == 3 ==> decode_setup(t, q).recipient == Recipient::Other,
        t & 0x1Fu8 >= 4 ==> decode_setup(t, q).recipient == Recipient::Reserved,
{
}

} // verus!
