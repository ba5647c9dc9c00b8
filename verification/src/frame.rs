//! WebSocket frames, as plain values.

use vstd::prelude::*;

verus! {

/// What a frame is for.
#[derive(Clone, Copy, Debug, PartialEq, Eq, Structural)]
pub enum OpCode {
    /// It goes on with a message that an earlier frame began.
    Continuation,
    /// It holds text.
    Text,
    /// It holds bytes.
    Binary,
    /// It closes the connection.
    Close,
    /// It asks whether the peer is there.
    Ping,
    /// It answers a ping.
    Pong,
}

/// A frame.
#[derive(Debug)]
pub struct Frame {
    /// Whether it is the last one of its message.
    pub fin: bool,
    /// What it is for.
    pub opcode: OpCode,
    /// What it carries.
    pub payload: Vec<u8>,
}

/// A frame, with its payload as a sequence.
#[verifier::ext_equal]
pub struct FrameView {
    /// Whether it is the last one of its message.
    pub fin: bool,
    /// What it is for.
    pub opcode: OpCode,
    /// What it carries.
    pub payload: Seq<u8>,
}

impl View for Frame {
    type V = FrameView;

    open spec fn view(&self) -> FrameView {
        FrameView { fin: self.fin, opcode: self.opcode, payload: self.payload@ }
    }
}

impl OpCode {
    /// Whether frames of this kind carry a packet.
    pub open spec fn spec_carries_packet(self) -> bool {
        self == OpCode::Text || self == OpCode::Binary || self == OpCode::Close
    }

    /// Tells whether frames of this kind carry a packet.
    pub fn carries_packet(self) -> (carries: bool)
        ensures
            carries == self.spec_carries_packet(),
    {
        match self {
            OpCode::Text | OpCode::Binary | OpCode::Close => true,
            OpCode::Continuation | OpCode::Ping | OpCode::Pong => false,
        }
    }
}

impl FrameView {
    /// An empty ping.
    pub open spec fn ping() -> FrameView {
        FrameView { fin: true, opcode: OpCode::Ping, payload: Seq::empty() }
    }

    /// A whole message of bytes.
    pub open spec fn binary(payload: Seq<u8>) -> FrameView {
        FrameView { fin: true, opcode: OpCode::Binary, payload }
    }

    /// The end of a connection: the code, with its high byte first, and then the
    /// reason.
    pub open spec fn close(code: u16, reason: Seq<u8>) -> FrameView {
        FrameView {
            fin: true,
            opcode: OpCode::Close,
            payload: seq![(code / 256) as u8, (code % 256) as u8] + reason,
        }
    }
}

impl Frame {
    /// Makes an empty ping.
    pub fn ping() -> (frame: Frame)
        ensures
            frame@ == FrameView::ping(),
    {
        Frame { fin: true, opcode: OpCode::Ping, payload: Vec::new() }
    }

    /// Makes a whole message of bytes.
    pub fn binary(payload: Vec<u8>) -> (frame: Frame)
        ensures
            frame@ == FrameView::binary(payload@),
    {
        Frame { fin: true, opcode: OpCode::Binary, payload }
    }

    /// Makes the end of a connection, with its code and its reason.
    pub fn close(code: u16, reason: &[u8]) -> (frame: Frame)
        ensures
            frame@ == FrameView::close(code, reason@),
    {
        let mut payload: Vec<u8> = Vec::new();
        payload.push((code / 256) as u8);
        payload.push((code % 256) as u8);
        payload.extend_from_slice(reason);
        proof {
            assert(payload@ =~= FrameView::close(code, reason@).payload);
        }
        Frame { fin: true, opcode: OpCode::Close, payload }
    }
}

/// The frames that carry a packet are those of text, of bytes and of the end of a
/// connection, and no others.
pub proof fn text_bytes_and_closes_carry_packets(opcode: OpCode, carries: bool)
    requires
        call_ensures(OpCode::carries_packet, (opcode,), carries),
    ensures
        opcode == OpCode::Text ==> carries,
        opcode == OpCode::Binary ==> carries,
        opcode == OpCode::Close ==> carries,
        opcode == OpCode::Continuation ==> !carries,
        opcode == OpCode::Ping ==> !carries,
        opcode == OpCode::Pong ==> !carries,
        carries == opcode.spec_carries_packet(),
{
}

/// The view of a frame holds all that the frame holds.
pub proof fn view_holds_the_frame(frame: Frame)
    ensures
        frame@.fin == frame.fin,
        frame@.opcode == frame.opcode,
        frame@.payload == frame.payload@,
{
}

/// A ping is whole and holds nothing.
pub proof fn ping_is_empty(frame: Frame)
    requires
        call_ensures(Frame::ping, (), frame),
    ensures
        frame.fin,
        frame.opcode == OpCode::Ping,
        frame.payload@.len() == 0,
        frame@ == FrameView::ping(),
{
}

/// A message of bytes is whole and holds the bytes that it is made of, however
/// many there are.
pub proof fn binary_frame_holds_the_bytes(payload: Vec<u8>, frame: Frame)
    requires
        call_ensures(Frame::binary, (payload,), frame),
    ensures
        frame.fin,
        frame.opcode == OpCode::Binary,
        frame.payload@ == payload@,
        frame@ == FrameView::binary(payload@),
{
}

/// A close frame is whole. It holds the code in two bytes, of which the first
/// counts 256 times, and behind them the reason, and nothing else.
pub proof fn close_frame_holds_code_and_reason(code: u16, reason: &[u8], frame: Frame)
    requires
        call_ensures(Frame::close, (code, reason), frame),
    ensures
        frame.fin,
        frame.opcode == OpCode::Close,
        frame.payload@.len() == 2 + reason@.len(),
        frame.payload@[0] * 256 + frame.payload@[1] == code,
        frame.payload@.skip(2) == reason@,
        frame@ == FrameView::close(code, reason@),
{
    assert(frame.payload@.skip(2) =~= reason@);
}

} // verus!
