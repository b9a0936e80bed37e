//! Bookkeeping of one data stream of an endpoint: where the transfer's
//! buffer is, how many of its bytes have moved, how many remain, and which
//! data toggle (DATA0 or DATA1) the next packet carries.

use vstd::prelude::*;

verus! {

/// What a [`StreamHandler`] holds, as plain values.
pub struct StreamState {
    /// Largest packet the endpoint moves at once.
    pub max_packet: usize,
    /// Whether the next packet is a DATA1 packet.
    pub data1: bool,
    /// Address of the transfer's buffer, once one was given.
    pub buf: Option<u32>,
    /// Bytes of the transfer still to move.
    pub transfer_size: usize,
    /// Bytes of the transfer already moved.
    pub position: usize,
}

impl StreamState {
    /// Whether a packet of `length` bytes ends the transfer: nothing is
    /// left, or the packet was short.
    pub open spec fn token_finishes(self, length: usize) -> bool {
        self.transfer_size - length == 0 || length < self.max_packet
    }

    /// The state after a packet of `length` bytes moved: the counters
    /// advance, and the data toggle flips unless the transfer ended.
    pub open spec fn after_token(self, length: usize) -> StreamState {
        StreamState {
            transfer_size: (self.transfer_size - length) as usize,
            position: (self.position + length) as usize,
            data1: if self.token_finishes(length) {
                self.data1
            } else {
                !self.data1
            },
            ..self
        }
    }

    /// The counters of a transfer never exceed the address space, and a
    /// stream without a buffer has no transfer.  Every stream satisfies
    /// this.
    pub open spec fn wf(self) -> bool {
        &&& self.position + self.transfer_size <= usize::MAX
        &&& self.buf is None ==> self.transfer_size == 0 && self.position == 0
    }

    /// Size of the next packet: a full packet, or what is left when that is
    /// less.
    pub open spec fn packet_len(self) -> usize {
        if self.max_packet < self.transfer_size {
            self.max_packet
        } else {
            self.transfer_size
        }
    }
}

/// The state of one data stream of an endpoint.
pub struct StreamHandler {
    max_packet: usize,
    data1: bool,
    buf: Option<u32>,
    transfer_size: usize,
    position: usize,
}

impl View for StreamHandler {
    type V = StreamState;

    closed spec fn view(&self) -> StreamState {
        StreamState {
            max_packet: self.max_packet,
            data1: self.data1,
            buf: self.buf,
            transfer_size: self.transfer_size,
            position: self.position,
        }
    }
}

impl StreamHandler {
    /// The counters of a transfer never exceed the address space, and a
    /// stream without a buffer has no transfer.
    #[verifier::type_invariant]
    spec fn inv(self) -> bool {
        &&& self.position + self.transfer_size <= usize::MAX
        &&& self.buf is None ==> self.transfer_size == 0 && self.position == 0
    }

    /// A stream for packets of at most `max` bytes, with no buffer yet.
    pub fn new(max: usize) -> (r: StreamHandler)
        ensures
            r@ == (StreamState {
                max_packet: max,
                data1: false,
                buf: None,
                transfer_size: 0,
                position: 0,
            }),
            r@.wf(),
    {
        StreamHandler { max_packet: max, data1: false, buf: None, transfer_size: 0, position: 0 }
    }

    /// Whether no transfer is pending.
    pub fn is_idle(&self) -> (r: bool)
        ensures
            r == (self@.transfer_size == 0),
            self@.wf(),
    {
        proof {
            use_type_invariant(self);
        }
        self.transfer_size == 0
    }

    /// Abandons the pending transfer, if any: nothing remains to move and
    /// nothing counts as moved.
    pub fn cancel(&mut self)
        ensures
            final(self)@ == (StreamState { transfer_size: 0, position: 0, ..old(self)@ }),
            final(self)@.wf(),
    {
        proof {
            use_type_invariant(&*self);
        }
        self.transfer_size = 0;
        self.position = 0;
    }

    /// Prepares to receive a transfer into the `buf_len` bytes at
    /// `buf_addr`, starting with the given data toggle.  No transfer may be
    /// pending.
    pub fn setup(&mut self, buf_addr: u32, buf_len: usize, data1: bool)
        requires
            old(self)@.transfer_size == 0,
        ensures
            final(self)@ == (StreamState {
                max_packet: old(self)@.max_packet,
                data1,
                buf: Some(buf_addr),
                transfer_size: buf_len,
                position: 0,
            }),
            final(self)@.wf(),
    {
        self.buf = Some(buf_addr);
        self.position = 0;
        self.transfer_size = buf_len;
        self.data1 = data1;
    }

    /// Accounts for a packet of `length` bytes; returns whether the transfer
    /// is finished (nothing left, or a short packet).  Otherwise the data
    /// toggle flips for the next packet.
    pub fn on_token(&mut self, length: usize) -> (r: bool)
        requires
            length <= old(self)@.transfer_size,
        ensures
            r == old(self)@.token_finishes(length),
            final(self)@ == old(self)@.after_token(length),
            final(self)@.position + final(self)@.transfer_size == old(self)@.position + old(
                self,
            )@.transfer_size,
            old(self)@.wf(),
            final(self)@.wf(),
    {
        proof {
            use_type_invariant(&*self);
        }
        self.transfer_size = self.transfer_size - length;
        self.position = self.position + length;
        if self.transfer_size == 0 || length < self.max_packet {
            true
        } else {
            self.data1 = !self.data1;
            false
        }
    }

    /// Address of the transfer's buffer.
    pub fn address(&self) -> (r: u32)
        requires
            self@.buf is Some,
        ensures
            self@.buf == Some(r),
    {
        match self.buf {
            Some(a) => a,
            None => 0,
        }
    }

    /// Size of the next packet: a full packet, or what is left when that is
    /// less.
    pub fn len(&self) -> (r: usize)
        ensures
            r == self@.packet_len(),
            self@.wf(),
    {
        proof {
            use_type_invariant(self);
        }
        if self.max_packet < self.transfer_size {
            self.max_packet
        } else {
            self.transfer_size
        }
    }

    /// Whether the next packet is a DATA1 packet.
    pub fn data1(&self) -> (r: bool)
        ensures
            r == self@.data1,
    {
        self.data1
    }
}

/// A packet moves bytes from what is left to what is done: the two
/// counters always add up to the transfer's length.
pub proof fn lemma_token_conserves_length(s: StreamState, length: usize)
    requires
        length <= s.transfer_size,
        s.position + s.transfer_size <= usize::MAX,
    ensures
        s.after_token(length).position + s.after_token(length).transfer_size == s.position
            + s.transfer_size,
        s.after_token(length).max_packet == s.max_packet,
        s.after_token(length).buf == s.buf,
{
}

/// Sending the packet that [`StreamHandler::len`] sizes ends the transfer
/// exactly when what is left fits into one packet.
pub proof fn lemma_full_packet_finishes(s: StreamState)
    requires
        s.max_packet > 0,
    ensures
        s.token_finishes(s.packet_len()) == (s.transfer_size <= s.max_packet),
        s.packet_len() <= s.transfer_size,
{
}

/// A short packet always ends the transfer and keeps the data toggle.
pub proof fn lemma_short_packet_ends(s: StreamState, length: usize)
    requires
        length <= s.transfer_size,
        length < s.max_packet,
    ensures
        s.token_finishes(length),
        s.after_token(length).data1 == s.data1,
{
}

/// Number of packets, each sized by [`StreamState::packet_len`], after which
/// the transfer ends.
pub open spec fn packets_to_finish(s: StreamState) -> nat
    decreases s.transfer_size,
{
    if s.max_packet == 0 || s.token_finishes(s.packet_len()) {
        1
    } else {
        1 + packets_to_finish(s.after_token(s.packet_len()))
    }
}

/// A transfer of n bytes, sent in packets sized by
/// [`StreamHandler::len`], ends after exactly ceil(n / max_packet) packets.
pub proof fn lemma_packets_to_finish(s: StreamState)
    requires
        s.max_packet > 0,
        s.transfer_size > 0,
    ensures
        (packets_to_finish(s) - 1) * s.max_packet < s.transfer_size,
        s.transfer_size <= packets_to_finish(s) * s.max_packet,
    decreases s.transfer_size,
{
    let m = s.max_packet as int;
    let n = s.transfer_size as int;
    if s.token_finishes(s.packet_len()) {
        assert(n <= m);
        assert(packets_to_finish(s) == 1);
        assert((1 - 1) * m == 0 && 1 * m == m);
    } else {
        let next = s.after_token(s.packet_len());
        assert(s.packet_len() == s.max_packet);
        lemma_packets_to_finish(next);
        let k = packets_to_finish(next) as int;
        assert(packets_to_finish(s) == k + 1);
        assert((k - 1) * m < n - m && n - m <= k * m);
        assert(k * m < n && n <= (k + 1) * m) by (nonlinear_arith)
            requires
                (k - 1) * m < n - m,
                n - m <= k * m,
        ;
    }
}

/// A full packet that leaves bytes over does not end the transfer: the
/// bytes left shrink by the packet, the bytes moved grow by it, and the
/// data toggle flips for the next packet.
pub proof fn lemma_full_packet_continues(s: StreamState, length: usize)
    requires
        length == s.max_packet,
        length < s.transfer_size,
        s.position + s.transfer_size <= usize::MAX,
    ensures
        !s.token_finishes(length),
        s.after_token(length).transfer_size == s.transfer_size - length,
        s.after_token(length).position == s.position + length,
        s.after_token(length).data1 == !s.data1,
{
}

} // verus!
