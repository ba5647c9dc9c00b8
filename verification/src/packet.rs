//! Sending and receiving packets.
//!
//! A packet is any value that can be turned into bytes and back. How that is
//! done is the caller's: it is handed in as `encode` and `decode`.

use std::marker::PhantomData;

use tokio::sync::mpsc::{UnboundedReceiver, UnboundedSender};
use vstd::prelude::*;

use crate::channel::{
    abandoned, arriving, carried, item_view, offer_next, open_channel, passed, places, poll, put,
    put_items_keep_their_order, taken, Item, Polled,
};
use crate::error::{ConnectionError, RecvError, SendError};
use crate::frame::{Frame, FrameView, OpCode};

verus! {

/// The outcome of putting a frame on a channel: on success the channel carries
/// it, and the only failure is that its receiving end is gone.
pub open spec fn delivered(
    channel: UnboundedSender<Item>,
    frame: FrameView,
    outcome: Result<(), SendError>,
) -> bool {
    match outcome {
        Ok(_) => carried(channel).contains(Ok::<FrameView, ConnectionError>(frame)),
        Err(error) => error == SendError::ChannelClosed && abandoned(channel),
    }
}

/// What a sender is told, given whether the channel accepted its frame.
pub open spec fn spec_acknowledge(accepted: bool) -> Result<(), SendError> {
    if accepted {
        Ok(())
    } else {
        Err(SendError::ChannelClosed)
    }
}

/// Tells a sender whether the channel accepted its frame.
pub fn acknowledge(accepted: bool) -> (outcome: Result<(), SendError>)
    ensures
        outcome == spec_acknowledge(accepted),
{
    if accepted {
        Ok(())
    } else {
        Err(SendError::ChannelClosed)
    }
}

/// Calls the `Clone` of `tokio`'s `UnboundedSender`.
///
/// Trusted: the new sending end belongs to the same channel, and has put nothing
/// there.
#[verifier::external_body]
fn clone_sender(channel: &UnboundedSender<Item>) -> (copy: UnboundedSender<Item>)
    ensures
        carried(copy) == carried(*channel),
        abandoned(copy) == abandoned(*channel),
        places(copy).len() == 0,
{
    channel.clone()
}

/// Calls `tokio`'s `UnboundedSender::send`, on an end that several may hold.
///
/// Trusted: an item that the call succeeds on is one that the channel carries,
/// and it fails only on a channel whose receiving end is gone. Whether that is
/// the case by now is not said: it is up to other tasks. Nor is it said where the
/// item stands among those of other calls: the sending end is shared, and no
/// value of it changes.
#[verifier::external_body]
fn offer(channel: &UnboundedSender<Item>, item: Item) -> (accepted: bool)
    ensures
        accepted ==> carried(*channel).contains(item_view(item)),
        !accepted ==> abandoned(*channel),
{
    channel.send(item).is_ok()
}

/// Puts a frame on a channel, through an end that nobody else holds.
pub fn deliver(channel: &mut UnboundedSender<Item>, frame: Frame) -> (outcome: Result<
    (),
    SendError,
>)
    ensures
        put(*old(channel), Ok(frame@), outcome is Ok, *final(channel)),
        outcome == spec_acknowledge(outcome is Ok),
{
    acknowledge(offer_next(channel, Ok(frame)))
}

/// Sends packets of one kind.
pub struct PacketSender<P> {
    /// Where frames leave for the connection.
    pub channel: UnboundedSender<Item>,
    /// The kind of packet.
    pub _ty: PhantomData<P>,
}

/// Whether two senders put their frames on one channel.
pub open spec fn share_channel<P>(one: PacketSender<P>, other: PacketSender<P>) -> bool {
    &&& carried(one.channel) == carried(other.channel)
    &&& abandoned(one.channel) == abandoned(other.channel)
}

impl<P> Clone for PacketSender<P> {
    fn clone(&self) -> (copy: Self)
        ensures
            share_channel(*self, copy),
    {
        PacketSender { channel: clone_sender(&self.channel), _ty: PhantomData }
    }
}

impl<P> PacketSender<P> {
    /// Asks whether the peer is there.
    pub fn ping(&self) -> (outcome: Result<(), SendError>)
        ensures
            delivered(self.channel, FrameView::ping(), outcome),
    {
        acknowledge(offer(&self.channel, Ok(Frame::ping())))
    }

    /// Sends what a packet was turned into.
    pub fn send_serialized(&self, serialized: Result<Vec<u8>, bincode::Error>) -> (outcome: Result<
        (),
        SendError,
    >)
        ensures
            (match serialized {
                Ok(bytes) => delivered(self.channel, FrameView::binary(bytes@), outcome),
                Err(error) => outcome == Err::<(), SendError>(SendError::Serialize(error)),
            }),
    {
        match serialized {
            Ok(bytes) => acknowledge(offer(&self.channel, Ok(Frame::binary(bytes)))),
            Err(error) => Err(SendError::Serialize(error)),
        }
    }

    /// Sends a packet, as the bytes that `encode` turns it into.
    pub fn send<F: FnOnce(&P) -> Result<Vec<u8>, bincode::Error>>(
        &self,
        msg: &P,
        encode: F,
    ) -> (outcome: Result<(), SendError>)
        requires
            encode.requires((msg,)),
        ensures
            exists|serialized: Result<Vec<u8>, bincode::Error>| #[trigger]
                encode.ensures((msg,), serialized) && (match serialized {
                    Ok(bytes) => delivered(self.channel, FrameView::binary(bytes@), outcome),
                    Err(error) => outcome == Err::<(), SendError>(SendError::Serialize(error)),
                }),
    {
        self.send_serialized(encode(msg))
    }

    /// Closes the connection with a code, and with what a last packet was turned
    /// into.
    pub fn close_serialized(
        &self,
        code: u16,
        serialized: Result<Vec<u8>, bincode::Error>,
    ) -> (outcome: Result<(), SendError>)
        ensures
            (match serialized {
                Ok(bytes) => delivered(self.channel, FrameView::close(code, bytes@), outcome),
                Err(error) => outcome == Err::<(), SendError>(SendError::Serialize(error)),
            }),
    {
        match serialized {
            Ok(bytes) => {
                let last = Frame::close(code, bytes.as_slice());
                acknowledge(offer(&self.channel, Ok(last)))
            },
            Err(error) => Err(SendError::Serialize(error)),
        }
    }

    /// Closes the connection with a code and a last packet, as the bytes that
    /// `encode` turns it into.
    pub fn close<F: FnOnce(&P) -> Result<Vec<u8>, bincode::Error>>(
        &self,
        code: u16,
        msg: &P,
        encode: F,
    ) -> (outcome: Result<(), SendError>)
        requires
            encode.requires((msg,)),
        ensures
            exists|serialized: Result<Vec<u8>, bincode::Error>| #[trigger]
                encode.ensures((msg,), serialized) && (match serialized {
                    Ok(bytes) => delivered(self.channel, FrameView::close(code, bytes@), outcome),
                    Err(error) => outcome == Err::<(), SendError>(SendError::Serialize(error)),
                }),
    {
        self.close_serialized(code, encode(msg))
    }
}

/// What a receiver is told of a payload, given what it was decoded to.
pub open spec fn spec_read<P>(decoded: Result<P, bincode::Error>) -> Result<Option<P>, RecvError> {
    match decoded {
        Ok(packet) => Ok(Some(packet)),
        Err(error) => Err(RecvError::Deserialize(error)),
    }
}

/// Whether a frame ends a connection, given what its payload was decoded to: it
/// does when it is a close frame that holds a packet.
pub open spec fn spec_ends<P>(opcode: OpCode, decoded: Result<P, bincode::Error>) -> bool {
    opcode == OpCode::Close && decoded is Ok
}

/// What becomes of an item: what the receiver is told, and whether it is closed
/// after it, given whether it was before. Where the item holds a packet, that is
/// for `decode` to read.
pub open spec fn processed<P, F: FnOnce(&[u8]) -> Result<P, bincode::Error>>(
    item: Result<FrameView, ConnectionError>,
    decode: F,
    was_closed: bool,
    outcome: Result<Option<P>, RecvError>,
    is_closed: bool,
) -> bool {
    match item {
        Ok(frame) => if frame.opcode.spec_carries_packet() {
            exists|payload: &[u8], decoded: Result<P, bincode::Error>|
                {
                    &&& payload@ == frame.payload
                    &&& #[trigger] decode.ensures((payload,), decoded)
                    &&& outcome == spec_read(decoded)
                    &&& is_closed == (was_closed || spec_ends(frame.opcode, decoded))
                }
        } else {
            outcome == Ok::<Option<P>, RecvError>(None) && is_closed == was_closed
        },
        Err(error) => {
            &&& outcome == Err::<Option<P>, RecvError>(RecvError::WebSocket(error))
            &&& is_closed == was_closed
        },
    }
}

/// Receives packets of one kind.
pub struct PacketReceiver<P> {
    /// Where frames arrive from the connection.
    pub channel: UnboundedReceiver<Item>,
    /// Whether the peer has closed the connection.
    pub closed: bool,
    /// The kind of packet.
    pub _ty: PhantomData<P>,
}

/// What becomes of what waiting gave: an item, or nothing because none will come
/// any more. A receiver that is closed takes in nothing.
pub open spec fn took_awaited<P, F: FnOnce(&[u8]) -> Result<P, bincode::Error>>(
    awaited: Option<Result<FrameView, ConnectionError>>,
    decode: F,
    was_closed: bool,
    outcome: Result<Option<P>, RecvError>,
    is_closed: bool,
) -> bool {
    if was_closed {
        &&& outcome == Err::<Option<P>, RecvError>(RecvError::ChannelClosed)
        &&& is_closed
    } else {
        match awaited {
            Some(item) => processed(item, decode, false, outcome, is_closed),
            None => {
                &&& outcome == Ok::<Option<P>, RecvError>(None)
                &&& !is_closed
            },
        }
    }
}

/// What becomes of what a look at the channel gave.
pub open spec fn took_polled<P, F: FnOnce(&[u8]) -> Result<P, bincode::Error>>(
    polled: Polled,
    decode: F,
    was_closed: bool,
    outcome: Result<Option<P>, RecvError>,
    is_closed: bool,
) -> bool {
    match polled {
        Polled::Ready(item) => processed(
            item_view(item),
            decode,
            was_closed,
            outcome,
            is_closed,
        ),
        Polled::Empty => {
            &&& outcome == Ok::<Option<P>, RecvError>(None)
            &&& is_closed == was_closed
        },
        Polled::Disconnected => {
            &&& outcome == Err::<Option<P>, RecvError>(RecvError::ChannelClosed)
            &&& is_closed == was_closed
        },
    }
}

/// What becomes of a receiver that looks for a packet. One that is closed takes
/// nothing. Another one takes the next item in line, or learns that there is
/// none for now, or that none is left.
pub open spec fn looked<P, F: FnOnce(&[u8]) -> Result<P, bincode::Error>>(
    before: PacketReceiver<P>,
    decode: F,
    outcome: Result<Option<P>, RecvError>,
    after: PacketReceiver<P>,
) -> bool {
    let line = arriving(before.channel);
    let next = taken(before.channel);
    if before.closed {
        &&& outcome == Err::<Option<P>, RecvError>(RecvError::ChannelClosed)
        &&& after == before
    } else {
        &&& arriving(after.channel) == line
        &&& {
            ||| {
                &&& next < line.len()
                &&& taken(after.channel) == next + 1
                &&& processed(line[next as int], decode, false, outcome, after.closed)
            }
            ||| {
                &&& taken(after.channel) == next
                &&& outcome == Ok::<Option<P>, RecvError>(None)
                &&& !after.closed
            }
            ||| {
                &&& taken(after.channel) == next
                &&& next == line.len()
                &&& outcome == Err::<Option<P>, RecvError>(RecvError::ChannelClosed)
                &&& !after.closed
            }
        }
    }
}

impl<P> PacketReceiver<P> {
    /// Tells whether the peer has closed the connection.
    pub fn is_closed(&self) -> (closed: bool)
        ensures
            closed == self.closed,
    {
        self.closed
    }

    /// Takes in a frame of the given kind, once its payload has been decoded.
    pub fn accept(&mut self, opcode: OpCode, decoded: Result<P, bincode::Error>) -> (outcome:
        Result<Option<P>, RecvError>)
        ensures
            final(self).channel == old(self).channel,
            outcome == spec_read(decoded),
            final(self).closed == (old(self).closed || spec_ends(opcode, decoded)),
    {
        match decoded {
            Ok(packet) => {
                if opcode == OpCode::Close {
                    self.closed = true;
                }
                Ok(Some(packet))
            },
            Err(error) => Err(RecvError::Deserialize(error)),
        }
    }

    /// Takes in an item that came off the channel.
    pub fn process<F: FnOnce(&[u8]) -> Result<P, bincode::Error>>(
        &mut self,
        result: Item,
        decode: F,
    ) -> (outcome: Result<Option<P>, RecvError>)
        requires
            forall|payload: &[u8]| decode.requires((payload,)),
        ensures
            final(self).channel == old(self).channel,
            processed(
                item_view(result),
                decode,
                old(self).closed,
                outcome,
                final(self).closed,
            ),
    {
        match result {
            Ok(frame) => {
                if frame.opcode.carries_packet() {
                    let decoded = decode(frame.payload.as_slice());
                    self.accept(frame.opcode, decoded)
                } else {
                    Ok(None)
                }
            },
            Err(error) => Err(RecvError::WebSocket(error)),
        }
    }

    /// Takes in what waiting on the channel gave: an item, or nothing because
    /// none will come any more. A receiver that is closed takes in nothing.
    pub fn recv<F: FnOnce(&[u8]) -> Result<P, bincode::Error>>(
        &mut self,
        awaited: Option<Item>,
        decode: F,
    ) -> (outcome: Result<Option<P>, RecvError>)
        requires
            forall|payload: &[u8]| decode.requires((payload,)),
        ensures
            final(self).channel == old(self).channel,
            took_awaited(
                match awaited {
                    Some(item) => Some(item_view(item)),
                    None => None,
                },
                decode,
                old(self).closed,
                outcome,
                final(self).closed,
            ),
    {
        if self.closed {
            return Err(RecvError::ChannelClosed);
        }
        match awaited {
            Some(item) => self.process(item, decode),
            None => Ok(None),
        }
    }

    /// Takes in what a look at the channel gave.
    pub fn take_polled<F: FnOnce(&[u8]) -> Result<P, bincode::Error>>(
        &mut self,
        polled: Polled,
        decode: F,
    ) -> (outcome: Result<Option<P>, RecvError>)
        requires
            forall|payload: &[u8]| decode.requires((payload,)),
        ensures
            final(self).channel == old(self).channel,
            took_polled(polled, decode, old(self).closed, outcome, final(self).closed),
    {
        match polled {
            Polled::Ready(item) => self.process(item, decode),
            Polled::Empty => Ok(None),
            Polled::Disconnected => Err(RecvError::ChannelClosed),
        }
    }

    /// Receives a packet if one is there, as `decode` reads it from its payload.
    ///
    /// A receiver that is closed takes nothing. Another one takes the next item
    /// in line, or learns that there is none for now, or that none is left.
    pub fn try_recv<F: FnOnce(&[u8]) -> Result<P, bincode::Error>>(
        &mut self,
        decode: F,
    ) -> (outcome: Result<Option<P>, RecvError>)
        requires
            forall|payload: &[u8]| decode.requires((payload,)),
        ensures
            looked(*old(self), decode, outcome, *final(self)),
    {
        if self.closed {
            return Err(RecvError::ChannelClosed);
        }
        let polled = poll(&mut self.channel);
        self.take_polled(polled, decode)
    }
}

/// The connection's ends of the channels to and from its user. They outlive the
/// connection: the next one goes on with them.
pub struct Reconnect {
    /// Where frames leave for the user.
    pub in_s: UnboundedSender<Item>,
    /// Where frames arrive from the user.
    pub out_r: UnboundedReceiver<Item>,
    /// Where the connection itself adds to the frames from the user.
    pub out_s: UnboundedSender<Item>,
}

/// Whether a receiver, a sender and the ends of a connection are fresh and
/// belong together: the receiver gets what the connection passes in, the
/// connection gets what the sender and the connection itself pass out, and
/// nothing has been put there or taken yet.
pub open spec fn linked<P>(
    receiver: PacketReceiver<P>,
    sender: PacketSender<P>,
    connection: Reconnect,
) -> bool {
    &&& !receiver.closed
    &&& arriving(receiver.channel) == carried(connection.in_s)
    &&& taken(receiver.channel) == 0
    &&& carried(sender.channel) == arriving(connection.out_r)
    &&& carried(connection.out_s) == arriving(connection.out_r)
    &&& abandoned(sender.channel) == abandoned(connection.out_s)
    &&& places(sender.channel).len() == 0
    &&& places(connection.in_s).len() == 0
    &&& places(connection.out_s).len() == 0
    &&& taken(connection.out_r) == 0
}

/// Sets up the channels between a connection and its user.
pub fn create_channels<P>() -> (ends: (PacketReceiver<P>, PacketSender<P>, Reconnect))
    ensures
        linked(ends.0, ends.1, ends.2),
{
    let (out_s, out_r) = open_channel();
    let (in_s, in_r) = open_channel();
    let recv = PacketReceiver { channel: in_r, closed: false, _ty: PhantomData };
    let send = PacketSender { channel: clone_sender(&out_s), _ty: PhantomData };
    (recv, send, Reconnect { in_s, out_r, out_s })
}

/// Whether `decode` reads every packet back from the bytes that `encode` turns
/// it into.
pub open spec fn reads_back<
    P,
    G: FnOnce(&P) -> Result<Vec<u8>, bincode::Error>,
    F: FnOnce(&[u8]) -> Result<P, bincode::Error>,
>(encode: G, decode: F) -> bool {
    forall|packet: P, bytes: Vec<u8>, payload: &[u8], decoded: Result<P, bincode::Error>|
        #[trigger] encode.ensures((&packet,), Ok(bytes)) && payload@ == bytes@
            && #[trigger] decode.ensures((payload,), decoded) ==> decoded == Ok::<
            P,
            bincode::Error,
        >(packet)
}

/// A packet that is sent is the packet that is received, as long as what decodes
/// it reads back what encodes it.
pub proof fn sent_packet_is_received<
    P,
    G: FnOnce(&P) -> Result<Vec<u8>, bincode::Error>,
    F: FnOnce(&[u8]) -> Result<P, bincode::Error>,
>(
    packet: P,
    bytes: Vec<u8>,
    encode: G,
    decode: F,
    was_closed: bool,
    outcome: Result<Option<P>, RecvError>,
    is_closed: bool,
)
    requires
        reads_back(encode, decode),
        encode.ensures((&packet,), Ok(bytes)),
        processed(
            Ok::<FrameView, ConnectionError>(FrameView::binary(bytes@)),
            decode,
            was_closed,
            outcome,
            is_closed,
        ),
    ensures
        outcome == Ok::<Option<P>, RecvError>(Some(packet)),
        is_closed == was_closed,
{
}

/// A connection that is closed with a last packet gives the receiver what
/// `decode` reads from the two bytes of the code and the bytes of the packet,
/// and closes it.
pub proof fn closing_packet_closes<P, F: FnOnce(&[u8]) -> Result<P, bincode::Error>>(
    code: u16,
    bytes: Seq<u8>,
    packet: P,
    decode: F,
    was_closed: bool,
    outcome: Result<Option<P>, RecvError>,
    is_closed: bool,
)
    requires
        forall|payload: &[u8], decoded: Result<P, bincode::Error>|
            payload@ == seq![(code / 256) as u8, (code % 256) as u8] + bytes
                && #[trigger] decode.ensures((payload,), decoded) ==> decoded == Ok::<
                P,
                bincode::Error,
            >(packet),
        processed(
            Ok::<FrameView, ConnectionError>(FrameView::close(code, bytes)),
            decode,
            was_closed,
            outcome,
            is_closed,
        ),
    ensures
        outcome == Ok::<Option<P>, RecvError>(Some(packet)),
        is_closed,
{
}

/// A receiver closes only on a close frame that holds a packet, and it hands
/// that packet out. Nothing opens it again.
pub proof fn only_a_closing_packet_closes<P, F: FnOnce(&[u8]) -> Result<P, bincode::Error>>(
    item: Result<FrameView, ConnectionError>,
    decode: F,
    was_closed: bool,
    outcome: Result<Option<P>, RecvError>,
    is_closed: bool,
)
    requires
        processed(item, decode, was_closed, outcome, is_closed),
    ensures
        was_closed ==> is_closed,
        is_closed && !was_closed ==> {
            &&& item matches Ok(frame)
            &&& frame.opcode == OpCode::Close
            &&& outcome matches Ok(Some(_))
        },
{
}

/// A ping goes by unnoticed by whoever receives packets.
pub proof fn ping_is_no_packet<P, F: FnOnce(&[u8]) -> Result<P, bincode::Error>>(
    decode: F,
    was_closed: bool,
    outcome: Result<Option<P>, RecvError>,
    is_closed: bool,
)
    requires
        processed(
            Ok::<FrameView, ConnectionError>(FrameView::ping()),
            decode,
            was_closed,
            outcome,
            is_closed,
        ),
    ensures
        outcome == Ok::<Option<P>, RecvError>(None),
        is_closed == was_closed,
{
}

/// A frame that a sender put on its channel has a place among those that the
/// connection takes off it.
pub proof fn sent_frame_is_in_line<P>(
    sender: PacketSender<P>,
    connection: Reconnect,
    frame: FrameView,
)
    requires
        carried(sender.channel) == arriving(connection.out_r),
        delivered(sender.channel, frame, Ok(())),
    ensures
        exists|i: int|
            0 <= i < arriving(connection.out_r).len() && #[trigger] arriving(connection.out_r)[i]
                == Ok::<FrameView, ConnectionError>(frame),
{
}

/// Whether what `decode` reads depends on the payload alone.
pub open spec fn is_function<P, F: FnOnce(&[u8]) -> Result<P, bincode::Error>>(decode: F) -> bool {
    forall|
        payload: &[u8],
        other_payload: &[u8],
        decoded: Result<P, bincode::Error>,
        other_decoded: Result<P, bincode::Error>,
    |
        payload@ == other_payload@ && #[trigger] decode.ensures((payload,), decoded)
            && #[trigger] decode.ensures((other_payload,), other_decoded) ==> decoded
            == other_decoded
}

/// What becomes of an item is settled by the item, as long as what `decode`
/// reads depends on the payload alone.
proof fn lemma_processed_once<P, F: FnOnce(&[u8]) -> Result<P, bincode::Error>>(
    item: Result<FrameView, ConnectionError>,
    decode: F,
    was_closed: bool,
    outcome: Result<Option<P>, RecvError>,
    is_closed: bool,
    other_outcome: Result<Option<P>, RecvError>,
    is_other_closed: bool,
)
    requires
        is_function(decode),
        processed(item, decode, was_closed, outcome, is_closed),
        processed(item, decode, was_closed, other_outcome, is_other_closed),
    ensures
        outcome == other_outcome,
        is_closed == is_other_closed,
{
}

/// An item that a look found ready is taken in just as one that was awaited.
pub proof fn ready_item_is_as_an_awaited_one<P, F: FnOnce(&[u8]) -> Result<P, bincode::Error>>(
    item: Item,
    decode: F,
    polled_outcome: Result<Option<P>, RecvError>,
    is_closed_after_look: bool,
    awaited_outcome: Result<Option<P>, RecvError>,
    is_closed_after_wait: bool,
)
    requires
        is_function(decode),
        took_polled(Polled::Ready(item), decode, false, polled_outcome, is_closed_after_look),
        took_awaited(Some(item_view(item)), decode, false, awaited_outcome, is_closed_after_wait),
    ensures
        polled_outcome == awaited_outcome,
        is_closed_after_look == is_closed_after_wait,
{
    lemma_processed_once(
        item_view(item),
        decode,
        false,
        polled_outcome,
        is_closed_after_look,
        awaited_outcome,
        is_closed_after_wait,
    );
}

/// A receiver that looks and takes an item ends as one that waits for the same
/// item: they tell the same, are closed or not alike, and have one item less
/// before them.
pub proof fn looking_is_as_waiting<P, F: FnOnce(&[u8]) -> Result<P, bincode::Error>>(
    before: PacketReceiver<P>,
    decode: F,
    outcome: Result<Option<P>, RecvError>,
    after: PacketReceiver<P>,
    awaited_outcome: Result<Option<P>, RecvError>,
    is_closed_after_wait: bool,
)
    requires
        is_function(decode),
        !before.closed,
        looked(before, decode, outcome, after),
        taken(after.channel) != taken(before.channel),
        took_awaited(
            Some(arriving(before.channel)[taken(before.channel) as int]),
            decode,
            false,
            awaited_outcome,
            is_closed_after_wait,
        ),
    ensures
        outcome == awaited_outcome,
        after.closed == is_closed_after_wait,
        arriving(after.channel) == arriving(before.channel),
        taken(after.channel) == taken(before.channel) + 1,
{
    lemma_processed_once(
        arriving(before.channel)[taken(before.channel) as int],
        decode,
        false,
        outcome,
        after.closed,
        awaited_outcome,
        is_closed_after_wait,
    );
}

/// Where the other ends of the channels are gone, so that a frame is refused, a
/// look finds the channel disconnected and a wait ends with nothing: the sender
/// and the look are told that the channel is closed, the wait is told that there
/// is no packet, and the receiver does not count as closed by its peer.
pub proof fn lost_ends_are_told<P, F: FnOnce(&[u8]) -> Result<P, bincode::Error>>(
    sender: PacketSender<P>,
    frame: FrameView,
    sent: Result<(), SendError>,
    decode: F,
    polled_outcome: Result<Option<P>, RecvError>,
    is_closed_after_look: bool,
    awaited_outcome: Result<Option<P>, RecvError>,
    is_closed_after_wait: bool,
)
    requires
        delivered(sender.channel, frame, sent),
        sent is Err,
        took_polled(Polled::Disconnected, decode, false, polled_outcome, is_closed_after_look),
        took_awaited(None, decode, false, awaited_outcome, is_closed_after_wait),
    ensures
        sent == Err::<(), SendError>(SendError::ChannelClosed),
        sent == spec_acknowledge(false),
        polled_outcome == Err::<Option<P>, RecvError>(RecvError::ChannelClosed),
        awaited_outcome == Ok::<Option<P>, RecvError>(None),
        !is_closed_after_look,
        !is_closed_after_wait,
{
}

/// Closing does not shut the sender: a packet that is sent after a last one is
/// carried too, and it is refused only where the receiving end is gone.
pub proof fn closing_does_not_shut_the_sender<P>(
    sender: PacketSender<P>,
    code: u16,
    last: Seq<u8>,
    bytes: Seq<u8>,
    outcome: Result<(), SendError>,
)
    requires
        delivered(sender.channel, FrameView::close(code, last), Ok(())),
        delivered(sender.channel, FrameView::binary(bytes), outcome),
    ensures
        !abandoned(sender.channel) ==> outcome is Ok,
        outcome is Ok ==> {
            &&& carried(sender.channel).contains(
                Ok::<FrameView, ConnectionError>(FrameView::close(code, last)),
            )
            &&& carried(sender.channel).contains(
                Ok::<FrameView, ConnectionError>(FrameView::binary(bytes)),
            )
        },
{
}

/// Frames that are sent through a sender and through a copy of it are carried by
/// one channel, and are refused only where the one receiving end of that is
/// gone.
pub proof fn copies_send_on_one_channel<P>(
    sender: PacketSender<P>,
    copy: PacketSender<P>,
    frame: FrameView,
    outcome: Result<(), SendError>,
    other_frame: FrameView,
    other_outcome: Result<(), SendError>,
)
    requires
        share_channel(sender, copy),
        delivered(sender.channel, frame, outcome),
        delivered(copy.channel, other_frame, other_outcome),
    ensures
        !abandoned(sender.channel) ==> outcome is Ok && other_outcome is Ok,
        outcome is Ok ==> carried(sender.channel).contains(Ok::<FrameView, ConnectionError>(frame)),
        other_outcome is Ok ==> carried(sender.channel).contains(
            Ok::<FrameView, ConnectionError>(other_frame),
        ),
{
}

/// What a receiver took off its channel while it looked for a packet.
pub open spec fn taken_by_look<P>(
    before: PacketReceiver<P>,
    after: PacketReceiver<P>,
) -> Option<Result<FrameView, ConnectionError>> {
    if taken(after.channel) == taken(before.channel) {
        None
    } else {
        Some(arriving(before.channel)[taken(before.channel) as int])
    }
}

/// What becomes of a receiver that waits or looks for a packet, given the item
/// that it took off its channel, if any.
pub open spec fn called<P, F: FnOnce(&[u8]) -> Result<P, bincode::Error>>(
    item: Option<Result<FrameView, ConnectionError>>,
    decode: F,
    was_closed: bool,
    outcome: Result<Option<P>, RecvError>,
    is_closed: bool,
) -> bool {
    if was_closed {
        &&& outcome == Err::<Option<P>, RecvError>(RecvError::ChannelClosed)
        &&& is_closed
    } else {
        match item {
            Some(item) => processed(item, decode, false, outcome, is_closed),
            None => {
                &&& outcome == Ok::<Option<P>, RecvError>(None) || outcome == Err::<
                    Option<P>,
                    RecvError,
                >(RecvError::ChannelClosed)
                &&& !is_closed
            },
        }
    }
}

/// Waiting for a packet is a call.
pub proof fn waiting_is_a_call<P, F: FnOnce(&[u8]) -> Result<P, bincode::Error>>(
    awaited: Option<Result<FrameView, ConnectionError>>,
    decode: F,
    was_closed: bool,
    outcome: Result<Option<P>, RecvError>,
    is_closed: bool,
)
    requires
        took_awaited(awaited, decode, was_closed, outcome, is_closed),
    ensures
        called(awaited, decode, was_closed, outcome, is_closed),
{
}

/// Looking for a packet is a call.
pub proof fn looking_is_a_call<P, F: FnOnce(&[u8]) -> Result<P, bincode::Error>>(
    before: PacketReceiver<P>,
    decode: F,
    outcome: Result<Option<P>, RecvError>,
    after: PacketReceiver<P>,
)
    requires
        looked(before, decode, outcome, after),
    ensures
        called(taken_by_look(before, after), decode, before.closed, outcome, after.closed),
{
}

/// Whether the call at `i` of a run is one of its receiver. Whether that was
/// closed before the call stands at `i` too.
pub open spec fn calls_on<P, F: FnOnce(&[u8]) -> Result<P, bincode::Error>>(
    items: Seq<Option<Result<FrameView, ConnectionError>>>,
    decodes: Seq<F>,
    outcomes: Seq<Result<Option<P>, RecvError>>,
    closed: Seq<bool>,
    i: int,
) -> bool {
    called(items[i], decodes[i], closed[i], outcomes[i], closed[i + 1])
}

/// Whether the call at `i` of a run took a close frame off the channel and read a
/// packet from it.
pub open spec fn took_last_packet<P>(
    items: Seq<Option<Result<FrameView, ConnectionError>>>,
    outcomes: Seq<Result<Option<P>, RecvError>>,
    i: int,
) -> bool {
    &&& items[i] matches Some(Ok(frame))
    &&& frame.opcode == OpCode::Close
    &&& outcomes[i] matches Ok(Some(_))
}

/// Over a run of calls, waiting or looking, a receiver that starts out open ends
/// up closed exactly where some call took a close frame with a packet in it.
/// Every call after that one is told that the channel is closed.
pub proof fn last_packet_closes_for_good<P, F: FnOnce(&[u8]) -> Result<P, bincode::Error>>(
    items: Seq<Option<Result<FrameView, ConnectionError>>>,
    decodes: Seq<F>,
    outcomes: Seq<Result<Option<P>, RecvError>>,
    closed: Seq<bool>,
)
    requires
        decodes.len() == items.len(),
        outcomes.len() == items.len(),
        closed.len() == items.len() + 1,
        !closed[0],
        forall|i: int|
            0 <= i < items.len() ==> #[trigger] calls_on(items, decodes, outcomes, closed, i),
    ensures
        closed.last() <==> exists|i: int|
            0 <= i < items.len() && #[trigger] took_last_packet(items, outcomes, i),
        forall|i: int, j: int|
            0 <= i < j < items.len() && #[trigger] took_last_packet(items, outcomes, i)
                ==> #[trigger] outcomes[j] == Err::<Option<P>, RecvError>(RecvError::ChannelClosed),
    decreases items.len(),
{
    if 0 < items.len() {
        let n = items.len() - 1;
        let earlier_items = items.drop_last();
        let earlier_outcomes = outcomes.drop_last();
        assert forall|i: int| 0 <= i < n implies #[trigger] calls_on(
            earlier_items,
            decodes.drop_last(),
            earlier_outcomes,
            closed.drop_last(),
            i,
        ) by {
            assert(calls_on(items, decodes, outcomes, closed, i));
        }
        last_packet_closes_for_good(
            earlier_items,
            decodes.drop_last(),
            earlier_outcomes,
            closed.drop_last(),
        );
        assert(calls_on(items, decodes, outcomes, closed, n));
        assert forall|i: int| 0 <= i < n implies #[trigger] took_last_packet(items, outcomes, i)
            == took_last_packet(earlier_items, earlier_outcomes, i) by {}
        if closed[n] {
            let i = choose|i: int|
                0 <= i < n && #[trigger] took_last_packet(earlier_items, earlier_outcomes, i);
            assert(took_last_packet(items, outcomes, i));
        }
        if closed[n + 1] && !closed[n] {
            assert(took_last_packet(items, outcomes, n));
        }
        assert forall|i: int, j: int|
            0 <= i < j < items.len() && #[trigger] took_last_packet(items, outcomes, i) implies
            #[trigger] outcomes[j] == Err::<Option<P>, RecvError>(RecvError::ChannelClosed) by {
            assert(took_last_packet(earlier_items, earlier_outcomes, i));
            if j < n {
                assert(earlier_outcomes[j] == Err::<Option<P>, RecvError>(
                    RecvError::ChannelClosed,
                ));
            }
        }
    }
}

/// A sender is told that its frame was sent exactly where the channel accepted
/// it, and else that the channel is closed.
pub proof fn acceptance_is_told(accepted: bool, outcome: Result<(), SendError>)
    requires
        call_ensures(acknowledge, (accepted,), outcome),
    ensures
        accepted ==> outcome == Ok::<(), SendError>(()),
        !accepted ==> outcome == Err::<(), SendError>(SendError::ChannelClosed),
        outcome == spec_acknowledge(accepted),
{
}

/// Putting a frame on a channel through an end that nobody else holds puts that
/// frame there, once and nothing else, or nothing at all where the receiving end
/// is gone, and says which.
pub proof fn delivery_puts_one_frame(
    channel: &mut UnboundedSender<Item>,
    frame: Frame,
    outcome: Result<(), SendError>,
)
    requires
        call_ensures(deliver, (channel, frame), outcome),
    ensures
        carried(*final(channel)) == carried(*old(channel)),
        outcome is Ok ==> passed(*final(channel)) == passed(*old(channel)).push(Ok(frame@)),
        outcome is Err ==> {
            &&& outcome == Err::<(), SendError>(SendError::ChannelClosed)
            &&& passed(*final(channel)) == passed(*old(channel))
            &&& abandoned(*old(channel))
        },
{
    put_items_keep_their_order(*old(channel), Ok(frame@), outcome is Ok, *final(channel));
}

/// A ping that was sent is an empty ping frame that the channel carries. One that
/// was not was refused because the channel is closed.
pub proof fn ping_is_sent_empty<P>(sender: &PacketSender<P>, outcome: Result<(), SendError>)
    requires
        call_ensures(PacketSender::<P>::ping, (sender,), outcome),
    ensures
        outcome is Ok ==> carried(sender.channel).contains(
            Ok::<FrameView, ConnectionError>(
                FrameView { fin: true, opcode: OpCode::Ping, payload: Seq::empty() },
            ),
        ),
        outcome is Err ==> outcome == Err::<(), SendError>(SendError::ChannelClosed) && abandoned(
            sender.channel,
        ),
{
}

/// Bytes that were sent are all of the payload of a whole binary frame that the
/// channel carries, however many they are. Where there are no bytes, that is
/// told, and where the channel is closed, that is.
pub proof fn bytes_are_sent_as_they_are<P>(
    sender: &PacketSender<P>,
    serialized: Result<Vec<u8>, bincode::Error>,
    outcome: Result<(), SendError>,
)
    requires
        call_ensures(PacketSender::<P>::send_serialized, (sender, serialized), outcome),
    ensures
        serialized matches Err(error) ==> outcome == Err::<(), SendError>(
            SendError::Serialize(error),
        ),
        serialized matches Ok(bytes) ==> outcome is Ok ==> carried(sender.channel).contains(
            Ok::<FrameView, ConnectionError>(
                FrameView { fin: true, opcode: OpCode::Binary, payload: bytes@ },
            ),
        ),
        serialized is Ok && outcome is Err ==> outcome == Err::<(), SendError>(
            SendError::ChannelClosed,
        ) && abandoned(sender.channel),
{
}

/// A packet that was sent is carried as the bytes that `encode` turns it into.
/// One that `encode` fails on is not sent, and the sender is told why.
pub proof fn packet_is_sent_as_encoded<P, F: FnOnce(&P) -> Result<Vec<u8>, bincode::Error>>(
    sender: &PacketSender<P>,
    packet: &P,
    encode: F,
    bytes: Seq<u8>,
    outcome: Result<(), SendError>,
)
    requires
        call_ensures(PacketSender::<P>::send::<F>, (sender, packet, encode), outcome),
        forall|serialized: Result<Vec<u8>, bincode::Error>| #[trigger]
            encode.ensures((packet,), serialized) ==> (serialized matches Ok(encoded) && encoded@
                == bytes),
    ensures
        outcome is Ok ==> carried(sender.channel).contains(
            Ok::<FrameView, ConnectionError>(
                FrameView { fin: true, opcode: OpCode::Binary, payload: bytes },
            ),
        ),
        outcome is Err ==> outcome == Err::<(), SendError>(SendError::ChannelClosed) && abandoned(
            sender.channel,
        ),
{
}

/// A packet that `encode` fails on is neither sent nor sent as a last one, and
/// the sender is told why.
pub proof fn packet_that_is_not_encoded_is_not_sent<
    P,
    F: FnOnce(&P) -> Result<Vec<u8>, bincode::Error>,
>(
    sender: &PacketSender<P>,
    code: u16,
    packet: &P,
    encode: F,
    error: bincode::Error,
    sent: Result<(), SendError>,
    closed: Result<(), SendError>,
)
    requires
        call_ensures(PacketSender::<P>::send::<F>, (sender, packet, encode), sent),
        call_ensures(PacketSender::<P>::close::<F>, (sender, code, packet, encode), closed),
        forall|serialized: Result<Vec<u8>, bincode::Error>| #[trigger]
            encode.ensures((packet,), serialized) ==> serialized == Err::<Vec<u8>, bincode::Error>(
                error,
            ),
    ensures
        sent == Err::<(), SendError>(SendError::Serialize(error)),
        closed == Err::<(), SendError>(SendError::Serialize(error)),
{
}

/// Bytes that a connection was closed with stand in a whole close frame that the
/// channel carries, behind the two bytes of the code, of which the first counts
/// 256 times. Where there are no bytes, that is told, and where the channel is
/// closed, that is.
pub proof fn last_bytes_are_sent_behind_the_code<P>(
    sender: &PacketSender<P>,
    code: u16,
    high: u8,
    low: u8,
    serialized: Result<Vec<u8>, bincode::Error>,
    outcome: Result<(), SendError>,
)
    requires
        high * 256 + low == code,
        call_ensures(PacketSender::<P>::close_serialized, (sender, code, serialized), outcome),
    ensures
        serialized matches Err(error) ==> outcome == Err::<(), SendError>(
            SendError::Serialize(error),
        ),
        serialized matches Ok(bytes) ==> outcome is Ok ==> carried(sender.channel).contains(
            Ok::<FrameView, ConnectionError>(
                FrameView { fin: true, opcode: OpCode::Close, payload: seq![high, low] + bytes@ },
            ),
        ),
        serialized is Ok && outcome is Err ==> outcome == Err::<(), SendError>(
            SendError::ChannelClosed,
        ) && abandoned(sender.channel),
{
}

/// A last packet that was sent is carried in a close frame, behind the code, as
/// the bytes that `encode` turns it into.
pub proof fn last_packet_is_sent_as_encoded<P, F: FnOnce(&P) -> Result<Vec<u8>, bincode::Error>>(
    sender: &PacketSender<P>,
    code: u16,
    high: u8,
    low: u8,
    packet: &P,
    encode: F,
    bytes: Seq<u8>,
    outcome: Result<(), SendError>,
)
    requires
        high * 256 + low == code,
        call_ensures(PacketSender::<P>::close::<F>, (sender, code, packet, encode), outcome),
        forall|serialized: Result<Vec<u8>, bincode::Error>| #[trigger]
            encode.ensures((packet,), serialized) ==> (serialized matches Ok(encoded) && encoded@
                == bytes),
    ensures
        outcome is Ok ==> carried(sender.channel).contains(
            Ok::<FrameView, ConnectionError>(
                FrameView { fin: true, opcode: OpCode::Close, payload: seq![high, low] + bytes },
            ),
        ),
        outcome is Err ==> outcome == Err::<(), SendError>(SendError::ChannelClosed) && abandoned(
            sender.channel,
        ),
{
}

/// A copy of a sender sends on the channel of the sender.
pub proof fn copy_sends_on_the_channel<P>(sender: &PacketSender<P>, copy: PacketSender<P>)
    requires
        call_ensures(PacketSender::<P>::clone, (sender,), copy),
    ensures
        carried(copy.channel) == carried(sender.channel),
        abandoned(copy.channel) == abandoned(sender.channel),
{
}

/// Fresh channels are open and empty at their receiving ends. What the connection
/// passes in goes to the receiver, and what the sender or the connection passes
/// out goes to the connection.
pub proof fn channels_start_fresh<P>(
    receiver: PacketReceiver<P>,
    sender: PacketSender<P>,
    connection: Reconnect,
)
    requires
        call_ensures(create_channels::<P>, (), (receiver, sender, connection)),
    ensures
        !receiver.closed,
        carried(connection.in_s) == arriving(receiver.channel),
        taken(receiver.channel) == 0,
        carried(sender.channel) == arriving(connection.out_r),
        carried(connection.out_s) == arriving(connection.out_r),
        abandoned(sender.channel) == abandoned(connection.out_s),
        taken(connection.out_r) == 0,
        passed(connection.in_s).len() == 0,
        passed(connection.out_s).len() == 0,
        passed(sender.channel).len() == 0,
{
}

/// A receiver says that it is closed exactly where it is.
pub proof fn closed_receiver_says_so<P>(receiver: &PacketReceiver<P>, closed: bool)
    requires
        call_ensures(PacketReceiver::<P>::is_closed, (receiver,), closed),
    ensures
        closed == receiver.closed,
{
}

/// Whether `decode` reads a payload as this, and as nothing else.
pub open spec fn reads_as<P, F: FnOnce(&[u8]) -> Result<P, bincode::Error>>(
    decode: F,
    payload: Seq<u8>,
    decoded: Result<P, bincode::Error>,
) -> bool {
    forall|bytes: &[u8], outcome: Result<P, bincode::Error>|
        bytes@ == payload && #[trigger] decode.ensures((bytes,), outcome) ==> outcome == decoded
}

/// A decoded packet is handed out, and closes the receiver exactly where it came
/// in a close frame. What could not be decoded is told and closes nothing.
pub proof fn decoded_packet_is_handed_out<P>(
    receiver: &mut PacketReceiver<P>,
    opcode: OpCode,
    decoded: Result<P, bincode::Error>,
    outcome: Result<Option<P>, RecvError>,
)
    requires
        call_ensures(PacketReceiver::<P>::accept, (receiver, opcode, decoded), outcome),
    ensures
        decoded matches Ok(packet) ==> {
            &&& outcome == Ok::<Option<P>, RecvError>(Some(packet))
            &&& final(receiver).closed == (old(receiver).closed || opcode == OpCode::Close)
        },
        decoded matches Err(error) ==> {
            &&& outcome == Err::<Option<P>, RecvError>(RecvError::Deserialize(error))
            &&& final(receiver).closed == old(receiver).closed
        },
        final(receiver).channel == old(receiver).channel,
{
}

/// A frame of text, of bytes or of the end of a connection gives the packet that
/// `decode` reads from the whole of its payload, or the reason why it reads none.
/// Only the end of a connection closes the receiver, and only with a packet.
pub proof fn frame_gives_what_is_decoded<P, F: FnOnce(&[u8]) -> Result<P, bincode::Error>>(
    frame: FrameView,
    decode: F,
    decoded: Result<P, bincode::Error>,
    was_closed: bool,
    outcome: Result<Option<P>, RecvError>,
    is_closed: bool,
)
    requires
        frame.opcode == OpCode::Text || frame.opcode == OpCode::Binary || frame.opcode
            == OpCode::Close,
        reads_as(decode, frame.payload, decoded),
        processed(Ok(frame), decode, was_closed, outcome, is_closed),
    ensures
        decoded matches Ok(packet) ==> {
            &&& outcome == Ok::<Option<P>, RecvError>(Some(packet))
            &&& is_closed == (was_closed || frame.opcode == OpCode::Close)
        },
        decoded matches Err(error) ==> {
            &&& outcome == Err::<Option<P>, RecvError>(RecvError::Deserialize(error))
            &&& is_closed == was_closed
        },
{
}

/// Any other frame passes by.
pub proof fn other_frames_pass_by<P, F: FnOnce(&[u8]) -> Result<P, bincode::Error>>(
    frame: FrameView,
    decode: F,
    was_closed: bool,
    outcome: Result<Option<P>, RecvError>,
    is_closed: bool,
)
    requires
        frame.opcode == OpCode::Ping || frame.opcode == OpCode::Pong || frame.opcode
            == OpCode::Continuation,
        processed(Ok(frame), decode, was_closed, outcome, is_closed),
    ensures
        outcome == Ok::<Option<P>, RecvError>(None),
        is_closed == was_closed,
{
}

/// An error of the connection is passed on and closes nothing.
pub proof fn error_is_passed_on<P, F: FnOnce(&[u8]) -> Result<P, bincode::Error>>(
    error: ConnectionError,
    decode: F,
    was_closed: bool,
    outcome: Result<Option<P>, RecvError>,
    is_closed: bool,
)
    requires
        processed(Err(error), decode, was_closed, outcome, is_closed),
    ensures
        outcome == Err::<Option<P>, RecvError>(RecvError::WebSocket(error)),
        is_closed == was_closed,
{
}

/// Taking in an item gives what `decode` reads from its payload where it is a
/// frame that carries a packet, nothing where it is another frame, and the error
/// where it is one.
pub proof fn item_is_taken_in<P, F: FnOnce(&[u8]) -> Result<P, bincode::Error>>(
    receiver: &mut PacketReceiver<P>,
    item: Item,
    decode: F,
    decoded: Result<P, bincode::Error>,
    outcome: Result<Option<P>, RecvError>,
)
    requires
        forall|payload: &[u8]| decode.requires((payload,)),
        call_ensures(PacketReceiver::<P>::process::<F>, (receiver, item, decode), outcome),
        item matches Ok(frame) ==> reads_as(decode, frame.payload@, decoded),
    ensures
        (match item {
            Ok(frame) => match frame.opcode {
                OpCode::Text | OpCode::Binary | OpCode::Close => match decoded {
                    Ok(packet) => {
                        &&& outcome == Ok::<Option<P>, RecvError>(Some(packet))
                        &&& final(receiver).closed == (old(receiver).closed || frame.opcode
                            == OpCode::Close)
                    },
                    Err(error) => {
                        &&& outcome == Err::<Option<P>, RecvError>(RecvError::Deserialize(error))
                        &&& final(receiver).closed == old(receiver).closed
                    },
                },
                OpCode::Ping | OpCode::Pong | OpCode::Continuation => {
                    &&& outcome == Ok::<Option<P>, RecvError>(None)
                    &&& final(receiver).closed == old(receiver).closed
                },
            },
            Err(error) => {
                &&& outcome == Err::<Option<P>, RecvError>(RecvError::WebSocket(error))
                &&& final(receiver).closed == old(receiver).closed
            },
        }),
        final(receiver).channel == old(receiver).channel,
{
}

/// A receiver that is open takes in an awaited item just as it takes in any item,
/// and is told that there is no packet where none will come. One that is closed
/// takes in nothing and is told so.
pub proof fn awaited_item_is_taken_in<P, F: FnOnce(&[u8]) -> Result<P, bincode::Error>>(
    receiver: &mut PacketReceiver<P>,
    awaited: Option<Item>,
    decode: F,
    decoded: Result<P, bincode::Error>,
    outcome: Result<Option<P>, RecvError>,
)
    requires
        forall|payload: &[u8]| decode.requires((payload,)),
        call_ensures(PacketReceiver::<P>::recv::<F>, (receiver, awaited, decode), outcome),
        awaited matches Some(Ok(frame)) ==> reads_as(decode, frame.payload@, decoded),
    ensures
        old(receiver).closed ==> outcome == Err::<Option<P>, RecvError>(RecvError::ChannelClosed)
            && final(receiver).closed,
        !old(receiver).closed ==> match awaited {
            Some(Ok(frame)) => match frame.opcode {
                OpCode::Text | OpCode::Binary | OpCode::Close => match decoded {
                    Ok(packet) => {
                        &&& outcome == Ok::<Option<P>, RecvError>(Some(packet))
                        &&& final(receiver).closed == (frame.opcode == OpCode::Close)
                    },
                    Err(error) => {
                        &&& outcome == Err::<Option<P>, RecvError>(RecvError::Deserialize(error))
                        &&& !final(receiver).closed
                    },
                },
                OpCode::Ping | OpCode::Pong | OpCode::Continuation => {
                    &&& outcome == Ok::<Option<P>, RecvError>(None)
                    &&& !final(receiver).closed
                },
            },
            Some(Err(error)) => {
                &&& outcome == Err::<Option<P>, RecvError>(RecvError::WebSocket(error))
                &&& !final(receiver).closed
            },
            None => {
                &&& outcome == Ok::<Option<P>, RecvError>(None)
                &&& !final(receiver).closed
            },
        },
        final(receiver).channel == old(receiver).channel,
{
}

/// What a look gave is taken in by what it is: an item as any item, nothing for
/// now as no packet, and nothing for good as a closed channel.
pub proof fn look_is_taken_in<P, F: FnOnce(&[u8]) -> Result<P, bincode::Error>>(
    receiver: &mut PacketReceiver<P>,
    polled: Polled,
    decode: F,
    decoded: Result<P, bincode::Error>,
    outcome: Result<Option<P>, RecvError>,
)
    requires
        forall|payload: &[u8]| decode.requires((payload,)),
        call_ensures(PacketReceiver::<P>::take_polled::<F>, (receiver, polled, decode), outcome),
        polled matches Polled::Ready(Ok(frame)) ==> reads_as(decode, frame.payload@, decoded),
    ensures
        (match polled {
            Polled::Ready(Ok(frame)) => match frame.opcode {
                OpCode::Text | OpCode::Binary | OpCode::Close => match decoded {
                    Ok(packet) => {
                        &&& outcome == Ok::<Option<P>, RecvError>(Some(packet))
                        &&& final(receiver).closed == (old(receiver).closed || frame.opcode
                            == OpCode::Close)
                    },
                    Err(error) => {
                        &&& outcome == Err::<Option<P>, RecvError>(RecvError::Deserialize(error))
                        &&& final(receiver).closed == old(receiver).closed
                    },
                },
                OpCode::Ping | OpCode::Pong | OpCode::Continuation => {
                    &&& outcome == Ok::<Option<P>, RecvError>(None)
                    &&& final(receiver).closed == old(receiver).closed
                },
            },
            Polled::Ready(Err(error)) => {
                &&& outcome == Err::<Option<P>, RecvError>(RecvError::WebSocket(error))
                &&& final(receiver).closed == old(receiver).closed
            },
            Polled::Empty => {
                &&& outcome == Ok::<Option<P>, RecvError>(None)
                &&& final(receiver).closed == old(receiver).closed
            },
            Polled::Disconnected => {
                &&& outcome == Err::<Option<P>, RecvError>(RecvError::ChannelClosed)
                &&& final(receiver).closed == old(receiver).closed
            },
        }),
        final(receiver).channel == old(receiver).channel,
{
}

/// A receiver that is closed takes nothing off its channel and is told so. One
/// that is open takes at most the item that is next in line, as any item. Where
/// it takes none, it stays open and is told that there is no packet, or that the
/// channel is closed; the latter only where nothing is left in line.
pub proof fn look_takes_the_next_in_line<P, F: FnOnce(&[u8]) -> Result<P, bincode::Error>>(
    receiver: &mut PacketReceiver<P>,
    decode: F,
    decoded: Result<P, bincode::Error>,
    outcome: Result<Option<P>, RecvError>,
)
    requires
        forall|payload: &[u8]| decode.requires((payload,)),
        call_ensures(PacketReceiver::<P>::try_recv::<F>, (receiver, decode), outcome),
        arriving(old(receiver).channel)[taken(old(receiver).channel) as int] matches Ok(frame)
            ==> reads_as(decode, frame.payload, decoded),
    ensures
        ({
            let line = arriving(old(receiver).channel);
            let next = taken(old(receiver).channel);
            let count = taken(final(receiver).channel);
            &&& arriving(final(receiver).channel) == line
            &&& old(receiver).closed ==> {
                &&& outcome == Err::<Option<P>, RecvError>(RecvError::ChannelClosed)
                &&& count == next
                &&& final(receiver).closed
            }
            &&& !old(receiver).closed && count == next ==> {
                &&& outcome == Ok::<Option<P>, RecvError>(None) || outcome == Err::<
                    Option<P>,
                    RecvError,
                >(RecvError::ChannelClosed) && next == line.len()
                &&& !final(receiver).closed
            }
            &&& !old(receiver).closed && count != next ==> {
                &&& count == next + 1
                &&& next < line.len()
                &&& match line[next as int] {
                    Ok(frame) => match frame.opcode {
                        OpCode::Text | OpCode::Binary | OpCode::Close => match decoded {
                            Ok(packet) => {
                                &&& outcome == Ok::<Option<P>, RecvError>(Some(packet))
                                &&& final(receiver).closed == (frame.opcode == OpCode::Close)
                            },
                            Err(error) => {
                                &&& outcome == Err::<Option<P>, RecvError>(
                                    RecvError::Deserialize(error),
                                )
                                &&& !final(receiver).closed
                            },
                        },
                        OpCode::Ping | OpCode::Pong | OpCode::Continuation => {
                            &&& outcome == Ok::<Option<P>, RecvError>(None)
                            &&& !final(receiver).closed
                        },
                    },
                    Err(error) => {
                        &&& outcome == Err::<Option<P>, RecvError>(RecvError::WebSocket(error))
                        &&& !final(receiver).closed
                    },
                }
            }
        }),
{
}

} // verus!
