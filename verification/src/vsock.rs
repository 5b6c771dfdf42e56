//! Host-guest transport: addresses, the length-prefixed framing, and the two
//! ends of a connection as state machines that are told what was read and
//! written and answer with what to do next.

use vstd::bytes::{
    lemma_auto_spec_u32_to_from_le_bytes, spec_u32_from_le_bytes, spec_u32_to_le_bytes,
    u32_from_le_bytes, u32_to_le_bytes,
};
use vstd::prelude::*;
use vstd::slice::slice_subrange;
use crate::text::{chars_of, chars_to_string, decimal, decimal_chars, extend_from};

verus! {

/// Context id of the host, as seen from a guest.
pub const VMADDR_CID_HOST: u32 = 2;

/// Context id that a listener binds to in order to accept any peer.
pub const VMADDR_CID_ANY: u32 = 0xFFFF_FFFF;

/// Port the host listens on unless told otherwise.
pub const DEFAULT_PORT: u32 = 818;

/// Backlog of the listening socket.
pub const LISTEN_BACKLOG: i32 = 128;

/// Capacity of the queue between the connection handlers and the relay.
pub const RELAY_QUEUE: usize = 100;

/// Status that acknowledges a frame. Other values are reserved.
pub const ACK_OK: u32 = 0;

/// Length of a frame header and of an acknowledgment.
pub const HEADER_LEN: usize = 4;

/// A payload received from a guest.
#[derive(Debug, PartialEq, Eq)]
pub struct VmMessage {
    pub vm_id: String,
    pub data: Vec<u8>,
}

/// The frame that carries `payload`: its length as a little-endian `u32`,
/// then the payload.
pub open spec fn frame(payload: Seq<u8>) -> Seq<u8> {
    spec_u32_to_le_bytes(payload.len() as u32) + payload
}

/// The acknowledgment that carries `status`.
pub open spec fn ack(status: u32) -> Seq<u8> {
    spec_u32_to_le_bytes(status)
}

/// The payloads of the complete frames at the start of `input`, in order.
pub open spec fn frames(input: Seq<u8>) -> Seq<Seq<u8>>
    decreases input.len(),
{
    if input.len() < 4 {
        Seq::empty()
    } else {
        let n = spec_u32_from_le_bytes(input.take(4)) as int;
        if input.len() < 4 + n {
            Seq::empty()
        } else {
            seq![input.subrange(4, 4 + n)] + frames(input.skip(4 + n))
        }
    }
}

/// The frames of `payloads`, one after another.
pub open spec fn wire(payloads: Seq<Seq<u8>>) -> Seq<u8>
    decreases payloads.len(),
{
    if payloads.len() == 0 {
        Seq::empty()
    } else {
        frame(payloads[0]) + wire(payloads.drop_first())
    }
}

/// Every payload is short enough for its length to fit the header.
pub open spec fn framable(payloads: Seq<Seq<u8>>) -> bool {
    forall|i: int| 0 <= i < payloads.len() ==> (#[trigger] payloads[i]).len() <= u32::MAX
}

/// A frame followed by more input is read back as its payload, followed by
/// the frames of the rest.
pub proof fn lemma_frames_first(payload: Seq<u8>, rest: Seq<u8>)
    requires
        payload.len() <= u32::MAX,
    ensures
        frames(frame(payload) + rest) == seq![payload] + frames(rest),
{
    lemma_auto_spec_u32_to_from_le_bytes();
    let header = spec_u32_to_le_bytes(payload.len() as u32);
    let input = frame(payload) + rest;
    assert(input.take(4) == header);
    assert(input.subrange(4, 4 + payload.len() as int) == payload);
    assert(input.skip(4 + payload.len() as int) == rest);
}

/// Framing round trip: a payload that is framed and read back comes out as
/// it went in, and as the only one.
pub proof fn lemma_frame_roundtrip(payload: Seq<u8>)
    requires
        payload.len() <= u32::MAX,
    ensures
        frames(frame(payload)) == seq![payload],
{
    lemma_frames_first(payload, Seq::empty());
    assert(frame(payload) + Seq::<u8>::empty() == frame(payload));
}

/// Frames written one after another are read back in order, followed by the
/// frames of whatever comes after them.
pub proof fn lemma_frames_wire(payloads: Seq<Seq<u8>>, rest: Seq<u8>)
    requires
        framable(payloads),
    ensures
        frames(wire(payloads) + rest) == payloads + frames(rest),
    decreases payloads.len(),
{
    if payloads.len() == 0 {
        assert(wire(payloads) + rest == rest);
        assert(payloads + frames(rest) == frames(rest));
    } else {
        let tail = payloads.drop_first();
        assert(framable(tail)) by {
            assert forall|i: int| 0 <= i < tail.len() implies (#[trigger] tail[i]).len()
                <= u32::MAX by {
                assert(tail[i] == payloads[i + 1]);
            }
        }
        lemma_frames_wire(tail, rest);
        lemma_frames_first(payloads[0], wire(tail) + rest);
        assert(wire(payloads) + rest == frame(payloads[0]) + (wire(tail) + rest));
        assert(seq![payloads[0]] + (tail + frames(rest)) == payloads + frames(rest));
    }
}

/// Why a payload cannot be framed.
#[derive(Debug, Clone, Copy, PartialEq, Eq, Structural)]
pub enum FrameError {
    /// The payload's length does not fit the header.
    TooLarge,
}

/// Frames `data` for sending.
pub fn encode_frame(data: &[u8]) -> (r: Result<Vec<u8>, FrameError>)
    ensures
        r is Ok <==> data@.len() <= u32::MAX,
        r matches Ok(bytes) ==> bytes@ == frame(data@),
{
    let len = data.len();
    if len > u32::MAX as usize {
        return Err(FrameError::TooLarge);
    }
    let mut out = u32_to_le_bytes(len as u32);
    extend_from(&mut out, data);
    Ok(out)
}

/// The acknowledgment for `status`, as bytes.
pub fn encode_ack(status: u32) -> (r: Vec<u8>)
    ensures
        r@ == ack(status),
        r@.len() == 4,
{
    u32_to_le_bytes(status)
}

/// The status that an acknowledgment carries; `None` unless `bytes` has the
/// length of one.
pub fn decode_ack(bytes: &[u8]) -> (r: Option<u32>)
    ensures
        r is Some <==> bytes@.len() == 4,
        r matches Some(status) ==> status == spec_u32_from_le_bytes(bytes@) && bytes@ == ack(
            status,
        ),
{
    if bytes.len() != 4 {
        return None;
    }
    proof {
        lemma_auto_spec_u32_to_from_le_bytes();
    }
    Some(u32_from_le_bytes(bytes))
}

/// Reads the complete frames at the start of `input`.
pub fn decode_frames(input: &[u8]) -> (r: Vec<Vec<u8>>)
    ensures
        byte_views(r@) == frames(input@),
{
    let total = input.len();
    let mut out: Vec<Vec<u8>> = Vec::new();
    let mut pos: usize = 0;
    assert(input@.skip(0) == input@);
    assert(byte_views(out@) + frames(input@) == frames(input@));
    loop
        invariant
            pos <= total,
            total == input@.len(),
            frames(input@) == byte_views(out@) + frames(input@.skip(pos as int)),
        decreases total - pos,
    {
        let ghost rest = input@.skip(pos as int);
        if total - pos < 4 {
            assert(byte_views(out@) + Seq::<Seq<u8>>::empty() == byte_views(out@));
            return out;
        }
        assert(rest.take(4) == input@.subrange(pos as int, pos + 4));
        let n = u32_from_le_bytes(slice_subrange(input, pos, pos + 4)) as usize;
        if total - pos - 4 < n {
            assert(byte_views(out@) + Seq::<Seq<u8>>::empty() == byte_views(out@));
            return out;
        }
        let mut payload: Vec<u8> = Vec::new();
        extend_from(&mut payload, slice_subrange(input, pos + 4, pos + 4 + n));
        assert(payload@ == rest.subrange(4, 4 + n));
        let ghost before = byte_views(out@);
        out.push(payload);
        assert(byte_views(out@) == before.push(rest.subrange(4, 4 + n)));
        assert(rest.skip(4 + n) == input@.skip(pos + 4 + n));
        assert(before + (seq![rest.subrange(4, 4 + n)] + frames(rest.skip(4 + n)))
            == before.push(rest.subrange(4, 4 + n)) + frames(rest.skip(4 + n)));
        pos = pos + 4 + n;
    }
}

/// The byte sequences that the vectors of `v` hold.
pub open spec fn byte_views(v: Seq<Vec<u8>>) -> Seq<Seq<u8>> {
    Seq::new(v.len(), |i: int| v[i]@)
}

/// Where a guest connection stands in the exchange of one frame.
#[derive(Debug, Clone, Copy, PartialEq, Eq, Structural)]
pub enum ConnPhase {
    /// Collecting the four bytes of a header.
    ReadingHeader,
    /// Collecting the payload that the header announced.
    ReadingBody,
    /// Writing the acknowledgment.
    Acking,
    /// Handing the acknowledged payload to the relay.
    Delivering,
    /// Done with the guest.
    Closed,
}

/// What a read on the connection's socket came back with.
#[derive(Debug, PartialEq, Eq)]
pub enum ReadResult {
    /// These bytes were read.
    Data(Vec<u8>),
    /// The guest closed the stream.
    Eof,
    /// The call was interrupted before it read anything.
    Interrupted,
    /// Nothing can be read right now.
    WouldBlock,
    /// The read failed.
    Failed,
}

/// What a write on the connection's socket came back with.
#[derive(Debug, Clone, Copy, PartialEq, Eq, Structural)]
pub enum WriteResult {
    /// This many bytes were written.
    Wrote(usize),
    /// The call was interrupted before it wrote anything.
    Interrupted,
    /// Nothing can be written right now.
    WouldBlock,
    /// The write failed.
    Failed,
}

/// What became of a payload handed to the relay.
#[derive(Debug, Clone, Copy, PartialEq, Eq, Structural)]
pub enum Delivery {
    /// The payload is a report and the relay took it.
    Forwarded,
    /// The payload is no report; it was dropped.
    Undecodable,
    /// The relay is gone.
    RelayClosed,
}

/// What the driver of a connection has to do next.
#[derive(Debug, PartialEq, Eq)]
pub enum ConnAction {
    /// Read at most this many bytes and report the outcome.
    Read(usize),
    /// Write these bytes and report the outcome.
    Write(Vec<u8>),
    /// Let other tasks run, then ask again.
    Yield,
    /// Decode this payload, hand it to the relay and report the outcome.
    Deliver(VmMessage),
    /// Close the socket; the connection is over.
    Close,
}

/// The state of a guest connection.
pub struct ConnectionView {
    pub vm_id: Seq<char>,
    pub phase: ConnPhase,
    /// The bytes collected of the header or payload being read.
    pub buf: Seq<u8>,
    /// The payload length that the current header announced.
    pub want: nat,
    /// How much of the current acknowledgment is written.
    pub acked: nat,
    /// The payloads of the frames dealt with so far, in order.
    pub framed: Seq<Seq<u8>>,
    /// Those of them that were handed to the relay.
    pub forwarded: Seq<Seq<u8>>,
    /// The bytes read since the last frame was dealt with.
    pub pending: Seq<u8>,
    /// The number of acknowledgment bytes written so far.
    pub acks: nat,
}

impl ConnectionView {
    /// A fresh connection.
    pub open spec fn fresh(vm_id: Seq<char>) -> ConnectionView {
        ConnectionView {
            vm_id,
            phase: ConnPhase::ReadingHeader,
            buf: Seq::empty(),
            want: 0,
            acked: 0,
            framed: Seq::empty(),
            forwarded: Seq::empty(),
            pending: Seq::empty(),
            acks: 0,
        }
    }

    /// Every byte read from the guest so far.
    pub open spec fn received(self) -> Seq<u8> {
        wire(self.framed) + self.pending
    }

    /// The bookkeeping agrees with the phase.
    pub open spec fn wf(self) -> bool {
        &&& framable(self.framed)
        &&& match self.phase {
            ConnPhase::ReadingHeader => {
                &&& self.buf.len() < 4
                &&& self.pending == self.buf
                &&& self.acks == 4 * self.framed.len()
            },
            ConnPhase::ReadingBody => {
                &&& self.want <= u32::MAX
                &&& self.buf.len() < self.want
                &&& self.pending == spec_u32_to_le_bytes(self.want as u32) + self.buf
                &&& self.acks == 4 * self.framed.len()
            },
            ConnPhase::Acking => {
                &&& self.want <= u32::MAX
                &&& self.buf.len() == self.want
                &&& self.pending == frame(self.buf)
                &&& self.acked < 4
                &&& self.acks == 4 * self.framed.len() + self.acked
            },
            ConnPhase::Delivering => {
                &&& self.want <= u32::MAX
                &&& self.buf.len() == self.want
                &&& self.pending == frame(self.buf)
                &&& self.acks == 4 * self.framed.len() + 4
            },
            ConnPhase::Closed => true,
        }
    }

    /// The same connection, closed.
    pub open spec fn closed(self) -> ConnectionView {
        ConnectionView { phase: ConnPhase::Closed, ..self }
    }

    /// The state after `chunk` was read. A chunk that is empty, longer than
    /// what was asked for, or read while nothing was asked for, closes the
    /// connection.
    pub open spec fn on_data(self, chunk: Seq<u8>) -> ConnectionView {
        let got = self.buf + chunk;
        let pending = self.pending + chunk;
        match self.phase {
            ConnPhase::ReadingHeader => {
                if 1 <= chunk.len() && got.len() < 4 {
                    ConnectionView { buf: got, pending, ..self }
                } else if 1 <= chunk.len() && got.len() == 4 {
                    let n = spec_u32_from_le_bytes(got) as nat;
                    ConnectionView {
                        phase: if n == 0 {
                            ConnPhase::Acking
                        } else {
                            ConnPhase::ReadingBody
                        },
                        buf: Seq::empty(),
                        want: n,
                        acked: 0,
                        pending,
                        ..self
                    }
                } else {
                    self.closed()
                }
            },
            ConnPhase::ReadingBody => {
                if 1 <= chunk.len() && got.len() < self.want {
                    ConnectionView { buf: got, pending, ..self }
                } else if 1 <= chunk.len() && got.len() == self.want {
                    ConnectionView { phase: ConnPhase::Acking, buf: got, acked: 0, pending, ..self }
                } else {
                    self.closed()
                }
            },
            _ => self.closed(),
        }
    }

    /// The state after a read came back with `r`.
    pub open spec fn on_read(self, r: ReadResult) -> ConnectionView {
        match r {
            ReadResult::Data(chunk) => self.on_data(chunk@),
            ReadResult::Eof | ReadResult::Failed => self.closed(),
            ReadResult::Interrupted | ReadResult::WouldBlock => self,
        }
    }

    /// The state after a write came back with `r`. Writing nothing, more than
    /// was asked for, or while nothing was to be written, closes the
    /// connection.
    pub open spec fn on_write(self, r: WriteResult) -> ConnectionView {
        match r {
            WriteResult::Wrote(n) => {
                if self.phase == ConnPhase::Acking && 1 <= n && self.acked + n < 4 {
                    ConnectionView {
                        acked: self.acked + n as nat,
                        acks: self.acks + n as nat,
                        ..self
                    }
                } else if self.phase == ConnPhase::Acking && 1 <= n && self.acked + n == 4 {
                    ConnectionView {
                        phase: ConnPhase::Delivering,
                        acked: 0,
                        acks: self.acks + n as nat,
                        ..self
                    }
                } else {
                    self.closed()
                }
            },
            WriteResult::Failed => self.closed(),
            WriteResult::Interrupted | WriteResult::WouldBlock => self,
        }
    }

    /// The state after the relay was handed the current payload.
    pub open spec fn on_delivery(self, d: Delivery) -> ConnectionView {
        if self.phase == ConnPhase::Delivering && d != Delivery::RelayClosed {
            ConnectionView {
                phase: ConnPhase::ReadingHeader,
                buf: Seq::empty(),
                want: 0,
                framed: self.framed.push(self.buf),
                forwarded: if d == Delivery::Forwarded {
                    self.forwarded.push(self.buf)
                } else {
                    self.forwarded
                },
                pending: Seq::empty(),
                ..self
            }
        } else {
            self.closed()
        }
    }

    /// `a` is what this state asks of its driver.
    pub open spec fn asks(self, a: ConnAction) -> bool {
        match self.phase {
            ConnPhase::ReadingHeader => a == ConnAction::Read((4 - self.buf.len()) as usize),
            ConnPhase::ReadingBody => a == ConnAction::Read((self.want - self.buf.len()) as usize),
            ConnPhase::Acking => a matches ConnAction::Write(bytes) && bytes@ == ack(ACK_OK).skip(
                self.acked as int,
            ),
            ConnPhase::Delivering => a matches ConnAction::Deliver(m) && m.vm_id@ == self.vm_id
                && m.data@ == self.buf,
            ConnPhase::Closed => a == ConnAction::Close,
        }
    }
}

/// Reading keeps the bookkeeping in order.
pub proof fn lemma_on_data_wf(v: ConnectionView, chunk: Seq<u8>)
    requires
        v.wf(),
    ensures
        v.on_data(chunk).wf(),
{
    lemma_auto_spec_u32_to_from_le_bytes();
    let got = v.buf + chunk;
    match v.phase {
        ConnPhase::ReadingHeader => {
            if 1 <= chunk.len() && got.len() == 4 {
                let n = spec_u32_from_le_bytes(got) as nat;
                assert(v.pending + chunk == got);
                assert(spec_u32_to_le_bytes(n as u32) == got);
                assert(got + Seq::<u8>::empty() == got);
                assert(frame(Seq::<u8>::empty()) == spec_u32_to_le_bytes(0u32) + Seq::<u8>::empty());
            }
        },
        ConnPhase::ReadingBody => {
            if 1 <= chunk.len() && got.len() <= v.want {
                assert(v.pending + chunk == spec_u32_to_le_bytes(v.want as u32) + got);
            }
        },
        _ => {},
    }
}

/// Writing keeps the bookkeeping in order.
pub proof fn lemma_on_write_wf(v: ConnectionView, r: WriteResult)
    requires
        v.wf(),
    ensures
        v.on_write(r).wf(),
{
}

/// Delivering keeps the bookkeeping in order.
pub proof fn lemma_on_delivery_wf(v: ConnectionView, d: Delivery)
    requires
        v.wf(),
    ensures
        v.on_delivery(d).wf(),
{
    if v.phase == ConnPhase::Delivering && d != Delivery::RelayClosed {
        let framed = v.framed.push(v.buf);
        assert forall|i: int| 0 <= i < framed.len() implies (#[trigger] framed[i]).len()
            <= u32::MAX by {
            if i < v.framed.len() {
                assert(framed[i] == v.framed[i]);
            }
        }
    }
}

/// Appending a payload to what the wire carries appends its frame to the wire.
proof fn lemma_wire_push(payloads: Seq<Seq<u8>>, payload: Seq<u8>)
    ensures
        wire(payloads.push(payload)) == wire(payloads) + frame(payload),
    decreases payloads.len(),
{
    if payloads.len() == 0 {
        assert(payloads.push(payload).drop_first() == Seq::<Seq<u8>>::empty());
        assert(wire(payloads.push(payload)) == frame(payload) + wire(Seq::empty()));
    } else {
        lemma_wire_push(payloads.drop_first(), payload);
        assert(payloads.push(payload).drop_first() == payloads.drop_first().push(payload));
        assert(payloads.push(payload)[0] == payloads[0]);
    }
}

/// What a connection has received is what was read on it, chunk after chunk:
/// a chunk that is taken in is appended, and neither writing nor delivering
/// changes what was received.
pub proof fn lemma_received(v: ConnectionView, chunk: Seq<u8>, w: WriteResult, d: Delivery)
    requires
        v.wf(),
    ensures
        v.on_data(chunk).phase != ConnPhase::Closed ==> v.on_data(chunk).received()
            == v.received() + chunk,
        v.on_write(w).received() == v.received(),
        v.on_delivery(d).phase != ConnPhase::Closed ==> v.on_delivery(d).received()
            == v.received(),
{
    if v.on_data(chunk).phase != ConnPhase::Closed {
        assert(wire(v.framed) + (v.pending + chunk) == (wire(v.framed) + v.pending) + chunk);
    }
    if v.on_delivery(d).phase != ConnPhase::Closed {
        lemma_wire_push(v.framed, v.buf);
        assert(wire(v.framed.push(v.buf)) + Seq::<u8>::empty() == wire(v.framed) + frame(v.buf));
    }
}

/// The listener reads back what was framed: while a connection is open, the
/// frames dealt with are exactly the complete frames of the bytes read, less
/// the one being acknowledged or delivered; and each of them was answered by
/// one acknowledgment.
pub proof fn lemma_connection_frames(v: ConnectionView)
    requires
        v.wf(),
        v.phase != ConnPhase::Closed,
    ensures
        v.phase == ConnPhase::ReadingHeader || v.phase == ConnPhase::ReadingBody ==> frames(
            v.received(),
        ) == v.framed && v.acks == 4 * v.framed.len(),
        v.phase == ConnPhase::Acking ==> frames(v.received()) == v.framed.push(v.buf) && v.acks
            == 4 * v.framed.len() + v.acked,
        v.phase == ConnPhase::Delivering ==> frames(v.received()) == v.framed.push(v.buf)
            && v.acks == 4 * (v.framed.len() + 1),
{
    lemma_auto_spec_u32_to_from_le_bytes();
    lemma_frames_wire(v.framed, v.pending);
    match v.phase {
        ConnPhase::ReadingHeader => {
            assert(v.framed + Seq::<Seq<u8>>::empty() == v.framed);
        },
        ConnPhase::ReadingBody => {
            assert(v.pending.take(4) == spec_u32_to_le_bytes(v.want as u32));
            assert(v.framed + Seq::<Seq<u8>>::empty() == v.framed);
        },
        _ => {
            lemma_frame_roundtrip(v.buf);
            assert(v.framed + seq![v.buf] == v.framed.push(v.buf));
        },
    }
}

/// One guest connection of the listener, without its socket: it is told what
/// each read and write came back with, and says what to do next.
pub struct Connection {
    vm_id: String,
    phase: ConnPhase,
    buf: Vec<u8>,
    want: usize,
    acked: usize,
    framed: Ghost<Seq<Seq<u8>>>,
    forwarded: Ghost<Seq<Seq<u8>>>,
    pending: Ghost<Seq<u8>>,
    acks: Ghost<nat>,
}

impl View for Connection {
    type V = ConnectionView;

    closed spec fn view(&self) -> ConnectionView {
        ConnectionView {
            vm_id: self.vm_id@,
            phase: self.phase,
            buf: self.buf@,
            want: self.want as nat,
            acked: self.acked as nat,
            framed: self.framed@,
            forwarded: self.forwarded@,
            pending: self.pending@,
            acks: self.acks@,
        }
    }
}

impl Connection {
    /// A connection that has read nothing yet.
    pub fn new(vm_id: String) -> (r: Self)
        ensures
            r@ == ConnectionView::fresh(vm_id@),
            r@.wf(),
    {
        Connection {
            vm_id,
            phase: ConnPhase::ReadingHeader,
            buf: Vec::new(),
            want: 0,
            acked: 0,
            framed: Ghost(Seq::empty()),
            forwarded: Ghost(Seq::empty()),
            pending: Ghost(Seq::empty()),
            acks: Ghost(0),
        }
    }

    /// The phase the connection is in.
    pub fn phase(&self) -> (r: ConnPhase)
        ensures
            r == self@.phase,
    {
        self.phase
    }

    /// The name the guest is known by.
    pub fn vm_id(&self) -> (r: &String)
        ensures
            r@ == self@.vm_id,
    {
        &self.vm_id
    }

    /// What the driver has to do in the current state.
    pub fn poll(&self) -> (a: ConnAction)
        requires
            self@.wf(),
        ensures
            self@.asks(a),
    {
        match self.phase {
            ConnPhase::ReadingHeader => ConnAction::Read(4 - self.buf.len()),
            ConnPhase::ReadingBody => ConnAction::Read(self.want - self.buf.len()),
            ConnPhase::Acking => {
                let all = encode_ack(ACK_OK);
                let mut rest: Vec<u8> = Vec::new();
                extend_from(&mut rest, slice_subrange(all.as_slice(), self.acked, 4));
                assert(all@.subrange(self.acked as int, 4) == all@.skip(self.acked as int));
                ConnAction::Write(rest)
            },
            ConnPhase::Delivering => {
                let mut data: Vec<u8> = Vec::new();
                extend_from(&mut data, self.buf.as_slice());
                ConnAction::Deliver(VmMessage { vm_id: self.vm_id.clone(), data })
            },
            ConnPhase::Closed => ConnAction::Close,
        }
    }

    /// Takes in the outcome of a read and says what to do next.
    pub fn on_read(&mut self, r: ReadResult) -> (a: ConnAction)
        requires
            old(self)@.wf(),
        ensures
            final(self)@ == old(self)@.on_read(r),
            final(self)@.wf(),
            r is WouldBlock ==> a == ConnAction::Yield,
            !(r is WouldBlock) ==> final(self)@.asks(a),
    {
        match r {
            ReadResult::Data(chunk) => {
                proof {
                    lemma_on_data_wf(self@, chunk@);
                }
                let n = chunk.len();
                let reading = self.phase == ConnPhase::ReadingHeader || self.phase
                    == ConnPhase::ReadingBody;
                let room = if self.phase == ConnPhase::ReadingHeader {
                    4 - self.buf.len()
                } else if self.phase == ConnPhase::ReadingBody {
                    self.want - self.buf.len()
                } else {
                    0
                };
                if !reading || n == 0 || n > room {
                    self.phase = ConnPhase::Closed;
                } else {
                    extend_from(&mut self.buf, chunk.as_slice());
                    proof {
                        self.pending@ = self.pending@ + chunk@;
                    }
                    if self.phase == ConnPhase::ReadingHeader {
                        if self.buf.len() == 4 {
                            let announced = u32_from_le_bytes(self.buf.as_slice());
                            self.want = announced as usize;
                            self.buf = Vec::new();
                            self.acked = 0;
                            self.phase = if announced == 0 {
                                ConnPhase::Acking
                            } else {
                                ConnPhase::ReadingBody
                            };
                        }
                    } else if self.buf.len() == self.want {
                        self.acked = 0;
                        self.phase = ConnPhase::Acking;
                    }
                }
                self.poll()
            },
            ReadResult::Eof | ReadResult::Failed => {
                self.phase = ConnPhase::Closed;
                ConnAction::Close
            },
            ReadResult::Interrupted => self.poll(),
            ReadResult::WouldBlock => ConnAction::Yield,
        }
    }

    /// Takes in the outcome of a write and says what to do next.
    pub fn on_write(&mut self, r: WriteResult) -> (a: ConnAction)
        requires
            old(self)@.wf(),
        ensures
            final(self)@ == old(self)@.on_write(r),
            final(self)@.wf(),
            r is WouldBlock ==> a == ConnAction::Yield,
            !(r is WouldBlock) ==> final(self)@.asks(a),
    {
        proof {
            lemma_on_write_wf(self@, r);
        }
        match r {
            WriteResult::Wrote(n) => {
                if self.phase == ConnPhase::Acking && 1 <= n && n <= 4 - self.acked {
                    proof {
                        self.acks@ = self.acks@ + n as nat;
                    }
                    if self.acked + n == 4 {
                        self.acked = 0;
                        self.phase = ConnPhase::Delivering;
                    } else {
                        self.acked = self.acked + n;
                    }
                } else {
                    self.phase = ConnPhase::Closed;
                }
                self.poll()
            },
            WriteResult::Failed => {
                self.phase = ConnPhase::Closed;
                ConnAction::Close
            },
            WriteResult::Interrupted => self.poll(),
            WriteResult::WouldBlock => ConnAction::Yield,
        }
    }

    /// Takes in that shutdown was signalled: the connection closes, whatever
    /// it was doing.
    pub fn on_shutdown(&mut self) -> (a: ConnAction)
        requires
            old(self)@.wf(),
        ensures
            final(self)@ == old(self)@.closed(),
            final(self)@.wf(),
            a == ConnAction::Close,
    {
        self.phase = ConnPhase::Closed;
        ConnAction::Close
    }

    /// Takes in what became of the payload handed out for delivery, and says
    /// what to do next. A payload that was no report is dropped and the
    /// connection goes on; when the relay is gone the connection closes.
    pub fn on_delivery(&mut self, d: Delivery) -> (a: ConnAction)
        requires
            old(self)@.wf(),
        ensures
            final(self)@ == old(self)@.on_delivery(d),
            final(self)@.wf(),
            final(self)@.asks(a),
    {
        proof {
            lemma_on_delivery_wf(self@, d);
        }
        let relay_closed = match d {
            Delivery::RelayClosed => true,
            _ => false,
        };
        if self.phase == ConnPhase::Delivering && !relay_closed {
            proof {
                self.framed@ = self.framed@.push(self.buf@);
                if d == Delivery::Forwarded {
                    self.forwarded@ = self.forwarded@.push(self.buf@);
                }
                self.pending@ = Seq::empty();
            }
            self.buf = Vec::new();
            self.want = 0;
            self.phase = ConnPhase::ReadingHeader;
        } else {
            self.phase = ConnPhase::Closed;
        }
        self.poll()
    }
}

/// Where the guest side stands in sending one payload.
#[derive(Debug, Clone, Copy, PartialEq, Eq, Structural)]
pub enum ClientPhase {
    /// Nothing is being sent.
    Idle,
    /// Writing the frame.
    Sending,
    /// Collecting the four bytes of the acknowledgment.
    AwaitingAck,
}

/// Why a payload was not sent and acknowledged.
#[derive(Debug, Clone, Copy, PartialEq, Eq, Structural)]
pub enum SendError {
    /// The payload's length does not fit the header.
    TooLarge,
    /// Another payload is still being sent.
    Busy,
    /// A write took no bytes.
    WriteZero,
    /// A write failed.
    WriteFailed,
    /// The stream ended before the acknowledgment was complete.
    UnexpectedEof,
    /// A read failed.
    ReadFailed,
    /// The host answered with this status instead of `ACK_OK`.
    Rejected(u32),
    /// The driver reported something that was not asked for.
    OutOfTurn,
}

/// What the driver of the guest side has to do next.
#[derive(Debug, PartialEq, Eq)]
pub enum ClientAction {
    /// Write these bytes and report the outcome.
    Write(Vec<u8>),
    /// Read at most this many bytes and report the outcome.
    Read(usize),
    /// The exchange is over, with this result.
    Done(Result<(), SendError>),
}

/// The state of the guest side.
pub struct ClientView {
    pub cid: u32,
    pub port: u32,
    pub phase: ClientPhase,
    /// The frame being sent.
    pub out: Seq<u8>,
    /// How much of it is written.
    pub sent: nat,
    /// The bytes collected of the acknowledgment.
    pub got: Seq<u8>,
}

impl ClientView {
    /// The guest side before anything is sent.
    pub open spec fn fresh(port: u32) -> ClientView {
        ClientView {
            cid: VMADDR_CID_HOST,
            port,
            phase: ClientPhase::Idle,
            out: Seq::empty(),
            sent: 0,
            got: Seq::empty(),
        }
    }

    /// The bookkeeping agrees with the phase.
    pub open spec fn wf(self) -> bool {
        match self.phase {
            ClientPhase::Idle => true,
            ClientPhase::Sending => self.sent < self.out.len() && self.got.len() == 0,
            ClientPhase::AwaitingAck => self.got.len() < 4,
        }
    }

    /// The same guest side with nothing in progress.
    pub open spec fn idle(self) -> ClientView {
        ClientView { phase: ClientPhase::Idle, out: Seq::empty(), sent: 0, got: Seq::empty(), ..self }
    }

    /// The state after `send_data` was asked to send `data`.
    pub open spec fn on_send(self, data: Seq<u8>) -> ClientView {
        if self.phase == ClientPhase::Idle && data.len() <= u32::MAX {
            ClientView {
                phase: ClientPhase::Sending,
                out: frame(data),
                sent: 0,
                got: Seq::empty(),
                ..self
            }
        } else {
            self
        }
    }

    /// The result that `send_data` reports at once, if any.
    pub open spec fn send_refused(self, data: Seq<u8>) -> Option<SendError> {
        if self.phase != ClientPhase::Idle {
            Some(SendError::Busy)
        } else if data.len() > u32::MAX {
            Some(SendError::TooLarge)
        } else {
            None
        }
    }

    /// The result that a write's outcome ends the exchange with, if it does.
    pub open spec fn write_verdict(self, r: WriteResult) -> Option<SendError> {
        if self.phase != ClientPhase::Sending {
            Some(SendError::OutOfTurn)
        } else {
            match r {
                WriteResult::Wrote(n) => {
                    if n == 0 {
                        Some(SendError::WriteZero)
                    } else if self.sent + n > self.out.len() {
                        Some(SendError::OutOfTurn)
                    } else {
                        None
                    }
                },
                WriteResult::Interrupted => None,
                WriteResult::WouldBlock | WriteResult::Failed => Some(SendError::WriteFailed),
            }
        }
    }

    /// The state after a write came back with `r`.
    pub open spec fn on_write(self, r: WriteResult) -> ClientView {
        if self.write_verdict(r) is Some {
            self.idle()
        } else {
            match r {
                WriteResult::Wrote(n) => {
                    if self.sent + n == self.out.len() {
                        ClientView { phase: ClientPhase::AwaitingAck, sent: self.sent + n as nat, ..self }
                    } else {
                        ClientView { sent: self.sent + n as nat, ..self }
                    }
                },
                _ => self,
            }
        }
    }

    /// The result that a read's outcome ends the exchange with, if it does.
    pub open spec fn read_verdict(self, r: ReadResult) -> Option<Result<(), SendError>> {
        if self.phase != ClientPhase::AwaitingAck {
            Some(Err(SendError::OutOfTurn))
        } else {
            match r {
                ReadResult::Data(chunk) => {
                    if chunk@.len() == 0 {
                        Some(Err(SendError::UnexpectedEof))
                    } else if self.got.len() + chunk@.len() > 4 {
                        Some(Err(SendError::OutOfTurn))
                    } else if self.got.len() + chunk@.len() == 4 {
                        let status = spec_u32_from_le_bytes(self.got + chunk@);
                        if status == ACK_OK {
                            Some(Ok(()))
                        } else {
                            Some(Err(SendError::Rejected(status)))
                        }
                    } else {
                        None
                    }
                },
                ReadResult::Eof => Some(Err(SendError::UnexpectedEof)),
                ReadResult::Interrupted => None,
                ReadResult::WouldBlock | ReadResult::Failed => Some(Err(SendError::ReadFailed)),
            }
        }
    }

    /// The state after a read came back with `r`.
    pub open spec fn on_read(self, r: ReadResult) -> ClientView {
        if self.read_verdict(r) is Some {
            self.idle()
        } else {
            match r {
                ReadResult::Data(chunk) => ClientView { got: self.got + chunk@, ..self },
                _ => self,
            }
        }
    }

    /// `a` is what this state asks of its driver while an exchange is going on.
    pub open spec fn asks(self, a: ClientAction) -> bool {
        match self.phase {
            ClientPhase::Idle => false,
            ClientPhase::Sending => a matches ClientAction::Write(bytes) && bytes@
                == self.out.skip(self.sent as int),
            ClientPhase::AwaitingAck => a == ClientAction::Read((4 - self.got.len()) as usize),
        }
    }
}

/// The guest side of the transport, without its socket: it is told what each
/// write and read came back with, and says what to do next.
pub struct VsockClient {
    cid: u32,
    port: u32,
    phase: ClientPhase,
    out: Vec<u8>,
    sent: usize,
    got: Vec<u8>,
}

impl View for VsockClient {
    type V = ClientView;

    closed spec fn view(&self) -> ClientView {
        ClientView {
            cid: self.cid,
            port: self.port,
            phase: self.phase,
            out: self.out@,
            sent: self.sent as nat,
            got: self.got@,
        }
    }
}

impl VsockClient {
    /// The guest side of a connection to the host's default port.
    pub fn connect() -> (r: Self)
        ensures
            r@ == ClientView::fresh(DEFAULT_PORT),
            r@.wf(),
    {
        Self::connect_to_port(DEFAULT_PORT)
    }

    /// The guest side of a connection to `port` on the host.
    pub fn connect_to_port(port: u32) -> (r: Self)
        ensures
            r@ == ClientView::fresh(port),
            r@.wf(),
    {
        VsockClient {
            cid: VMADDR_CID_HOST,
            port,
            phase: ClientPhase::Idle,
            out: Vec::new(),
            sent: 0,
            got: Vec::new(),
        }
    }

    /// The address to connect the socket to: context id and port.
    pub fn address(&self) -> (r: (u32, u32))
        ensures
            r == (self@.cid, self@.port),
    {
        (self.cid, self.port)
    }

    /// The phase the exchange is in.
    pub fn phase(&self) -> (r: ClientPhase)
        ensures
            r == self@.phase,
    {
        self.phase
    }

    /// Forgets the exchange in progress.
    fn reset(&mut self)
        ensures
            final(self)@ == old(self)@.idle(),
    {
        self.phase = ClientPhase::Idle;
        self.out = Vec::new();
        self.sent = 0;
        self.got = Vec::new();
    }

    /// What is to be done next while an exchange is going on.
    fn pending(&self) -> (a: ClientAction)
        requires
            self@.wf(),
            self@.phase != ClientPhase::Idle,
        ensures
            self@.asks(a),
    {
        match self.phase {
            ClientPhase::AwaitingAck => ClientAction::Read(4 - self.got.len()),
            _ => {
                let mut rest: Vec<u8> = Vec::new();
                extend_from(&mut rest, slice_subrange(self.out.as_slice(), self.sent, self.out.len()));
                assert(self.out@.subrange(self.sent as int, self.out@.len() as int)
                    == self.out@.skip(self.sent as int));
                ClientAction::Write(rest)
            },
        }
    }

    /// Begins sending `data`: the frame is to be written, then the
    /// acknowledgment read. Refused at once while another payload is on its
    /// way, or when `data` is too long for a frame.
    pub fn send_data(&mut self, data: &[u8]) -> (a: ClientAction)
        requires
            old(self)@.wf(),
        ensures
            final(self)@ == old(self)@.on_send(data@),
            final(self)@.wf(),
            match old(self)@.send_refused(data@) {
                Some(e) => a == ClientAction::Done(Err(e)),
                None => final(self)@.asks(a),
            },
    {
        if self.phase != ClientPhase::Idle {
            return ClientAction::Done(Err(SendError::Busy));
        }
        match encode_frame(data) {
            Err(_) => ClientAction::Done(Err(SendError::TooLarge)),
            Ok(bytes) => {
                proof {
                    lemma_auto_spec_u32_to_from_le_bytes();
                }
                self.out = bytes;
                self.sent = 0;
                self.got = Vec::new();
                self.phase = ClientPhase::Sending;
                self.pending()
            },
        }
    }

    /// Takes in the outcome of a write and says what to do next. A write that
    /// cannot go on right now counts as failed: the guest's socket blocks.
    pub fn on_write(&mut self, r: WriteResult) -> (a: ClientAction)
        requires
            old(self)@.wf(),
        ensures
            final(self)@ == old(self)@.on_write(r),
            final(self)@.wf(),
            match old(self)@.write_verdict(r) {
                Some(e) => a == ClientAction::Done(Err(e)),
                None => final(self)@.asks(a),
            },
    {
        if self.phase != ClientPhase::Sending {
            self.reset();
            return ClientAction::Done(Err(SendError::OutOfTurn));
        }
        match r {
            WriteResult::Wrote(n) => {
                if n == 0 {
                    self.reset();
                    ClientAction::Done(Err(SendError::WriteZero))
                } else if n > self.out.len() - self.sent {
                    self.reset();
                    ClientAction::Done(Err(SendError::OutOfTurn))
                } else {
                    self.sent = self.sent + n;
                    if self.sent == self.out.len() {
                        self.phase = ClientPhase::AwaitingAck;
                    }
                    self.pending()
                }
            },
            WriteResult::Interrupted => self.pending(),
            WriteResult::WouldBlock | WriteResult::Failed => {
                self.reset();
                ClientAction::Done(Err(SendError::WriteFailed))
            },
        }
    }

    /// Takes in the outcome of a read and says what to do next. The exchange
    /// succeeds when the acknowledgment carries `ACK_OK`; any other status is
    /// reported as it came.
    pub fn on_read(&mut self, r: ReadResult) -> (a: ClientAction)
        requires
            old(self)@.wf(),
        ensures
            final(self)@ == old(self)@.on_read(r),
            final(self)@.wf(),
            match old(self)@.read_verdict(r) {
                Some(res) => a == ClientAction::Done(res),
                None => final(self)@.asks(a),
            },
    {
        if self.phase != ClientPhase::AwaitingAck {
            self.reset();
            return ClientAction::Done(Err(SendError::OutOfTurn));
        }
        match r {
            ReadResult::Data(chunk) => {
                if chunk.len() == 0 {
                    self.reset();
                    ClientAction::Done(Err(SendError::UnexpectedEof))
                } else if chunk.len() > 4 - self.got.len() {
                    self.reset();
                    ClientAction::Done(Err(SendError::OutOfTurn))
                } else {
                    extend_from(&mut self.got, chunk.as_slice());
                    if self.got.len() == 4 {
                        let status = u32_from_le_bytes(self.got.as_slice());
                        self.reset();
                        if status == ACK_OK {
                            ClientAction::Done(Ok(()))
                        } else {
                            ClientAction::Done(Err(SendError::Rejected(status)))
                        }
                    } else {
                        self.pending()
                    }
                }
            },
            ReadResult::Eof => {
                self.reset();
                ClientAction::Done(Err(SendError::UnexpectedEof))
            },
            ReadResult::Interrupted => self.pending(),
            ReadResult::WouldBlock | ReadResult::Failed => {
                self.reset();
                ClientAction::Done(Err(SendError::ReadFailed))
            },
        }
    }
}

/// Prefix of the name a guest is known by.
pub const GUEST_PREFIX: &'static str = "vm-";

/// The name a guest is known by: the prefix and the number of the
/// descriptor it was accepted on.
pub open spec fn guest_name(fd: u32) -> Seq<char> {
    GUEST_PREFIX@ + decimal(fd as nat)
}

/// What the host reports to the listener.
#[derive(Debug, Clone, Copy, PartialEq, Eq, Structural)]
pub enum ServerEvent {
    /// The listener is bound and listening.
    Listening,
    /// A guest connected, on this descriptor.
    Accepted(u32),
    /// Accepting failed.
    AcceptFailed,
    /// Shutdown was signalled.
    Shutdown,
}

/// What the listener asks of the host.
pub enum ServerAction {
    /// Wait for the next guest or for shutdown.
    Accept,
    /// Drive this connection on a task of its own, and go on accepting.
    Handle(Connection),
    /// Stop accepting and close the listening socket.
    Stop,
}

/// The listener, without its socket.
#[derive(Debug, Clone, Copy, PartialEq, Eq, Structural)]
pub struct VsockServer {
    pub port: u32,
}

impl VsockServer {
    /// The listener for `port`.
    pub fn bind(port: u32) -> (r: Self)
        ensures
            r.port == port,
    {
        VsockServer { port }
    }

    /// The address to bind the socket to: any context id, and the port.
    pub fn address(&self) -> (r: (u32, u32))
        ensures
            r == (VMADDR_CID_ANY, self.port),
    {
        (VMADDR_CID_ANY, self.port)
    }

    /// The connection of a guest accepted on the descriptor `fd`.
    pub fn accept_connection(&self, fd: u32) -> (r: Connection)
        ensures
            r@ == ConnectionView::fresh(guest_name(fd)),
            r@.wf(),
    {
        let mut name = chars_of(GUEST_PREFIX);
        let digits = decimal_chars(fd as u64);
        extend_from(&mut name, digits.as_slice());
        Connection::new(chars_to_string(name.as_slice()))
    }

    /// Takes in what the host reports and says what to do next: every guest
    /// gets a connection of its own; a failed accept is passed over;
    /// shutdown stops the listener.
    pub fn serve(&self, event: ServerEvent) -> (a: ServerAction)
        ensures
            match event {
                ServerEvent::Listening | ServerEvent::AcceptFailed => a is Accept,
                ServerEvent::Accepted(fd) => a matches ServerAction::Handle(c) && c@
                    == ConnectionView::fresh(guest_name(fd)) && c@.wf(),
                ServerEvent::Shutdown => a is Stop,
            },
    {
        match event {
            ServerEvent::Listening => ServerAction::Accept,
            ServerEvent::AcceptFailed => ServerAction::Accept,
            ServerEvent::Accepted(fd) => ServerAction::Handle(self.accept_connection(fd)),
            ServerEvent::Shutdown => ServerAction::Stop,
        }
    }
}

} // verus!
