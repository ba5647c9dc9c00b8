//! Calls between two peers, carried by numbered packets.
//!
//! A peer calls the other with a request and gets a response under the same
//! number.

pub mod client;
pub mod server;

use vstd::prelude::*;

use crate::channel::{abandoned, carried};
use crate::error::{ConnectionError, RecvError};
use crate::frame::{FrameView, OpCode};
use crate::packet::PacketSender;
use crate::peer::Identity;

verus! {

/// The sending half of a channel of the `response_channel` crate: messages go
/// out on it and responses come back. The library passes it on and never looks
/// inside.
#[verifier::external_type_specification]
#[verifier::external_body]
#[verifier::reject_recursive_types(M)]
#[verifier::reject_recursive_types(R)]
pub struct ExResponseSender<M, R>(response_channel::Sender<M, R>);

/// A set of calls that a peer offers.
pub trait RPC: Sized {
    /// What a caller says.
    type Message;

    /// What the caller is told.
    type Response;

    /// Makes the calls available through a channel.
    fn new(chan: response_channel::Sender<Self::Message, Self::Response>) -> Self;
}

/// What travels between two peers: a call of what this side offers, or the
/// outcome of a call of what the other side offers.
pub enum Packet<Local: RPC, Remote: RPC> {
    /// A call.
    Request {
        /// The number of the call.
        id: u64,
        /// What is called.
        data: Local::Message,
    },
    /// The outcome of a call.
    Response {
        /// The number of the call.
        id: u64,
        /// What came of it.
        data: Remote::Response,
    },
}

impl<Local: RPC, Remote: RPC> Packet<Local, Remote> {
    /// The number of the call that this packet belongs to.
    pub open spec fn spec_id(&self) -> u64 {
        match self {
            Packet::Request { id, .. } => *id,
            Packet::Response { id, .. } => *id,
        }
    }

    /// Returns the number of the call that this packet belongs to.
    pub fn id(&self) -> (id: u64)
        ensures
            id == self.spec_id(),
    {
        match self {
            Packet::Request { id, .. } => *id,
            Packet::Response { id, .. } => *id,
        }
    }

    /// Makes the packet that answers this one: a response under the same number.
    pub fn respond(&self, response: Local::Response) -> (answer: Packet<Remote, Local>)
        ensures
            answer == (Packet::<Remote, Local>::Response { id: self.spec_id(), data: response }),
    {
        answer(self.id(), response)
    }
}

/// Makes the packet that answers the call of a given number.
pub fn answer<Local: RPC, Remote: RPC>(id: u64, response: Local::Response) -> (answer: Packet<
    Remote,
    Local,
>)
    ensures
        answer == (Packet::<Remote, Local>::Response { id, data: response }),
{
    Packet::Response { id, data: response }
}

/// What a peer does about something that it received.
pub enum Dispatch<M> {
    /// Hand the call to whoever offers it, and answer it under its number.
    Deliver {
        /// The number of the call.
        id: u64,
        /// What is called.
        data: M,
    },
    /// Nothing, and go on receiving.
    Continue,
    /// Receive nothing more.
    Stop(RecvError),
}

/// What is done about something received: calls are delivered, responses and
/// the absence of a packet pass by, and a failure ends it.
pub open spec fn spec_dispatch<Local: RPC, Remote: RPC>(
    received: Result<Option<Packet<Local, Remote>>, RecvError>,
) -> Dispatch<Local::Message> {
    match received {
        Ok(Some(Packet::Request { id, data })) => Dispatch::Deliver { id, data },
        Ok(Some(Packet::Response { .. })) => Dispatch::Continue,
        Ok(None) => Dispatch::Continue,
        Err(error) => Dispatch::Stop(error),
    }
}

/// Decides what to do about something received.
pub fn dispatch<Local: RPC, Remote: RPC>(
    received: Result<Option<Packet<Local, Remote>>, RecvError>,
) -> (decision: Dispatch<Local::Message>)
    ensures
        decision == spec_dispatch(received),
{
    match received {
        Ok(Some(Packet::Request { id, data })) => Dispatch::Deliver { id, data },
        Ok(Some(Packet::Response { .. })) => Dispatch::Continue,
        Ok(None) => Dispatch::Continue,
        Err(error) => Dispatch::Stop(error),
    }
}

/// Whether a peer goes on with what it does.
#[derive(Clone, Copy, Debug, PartialEq, Eq, Structural)]
pub enum Progress {
    /// It goes on.
    Continue,
    /// It ends.
    Stop,
}

/// Decides whether to go on after handing something over: only if it was taken.
pub fn proceed(accepted: bool) -> (progress: Progress)
    ensures
        progress == if accepted {
            Progress::Continue
        } else {
            Progress::Stop
        },
{
    if accepted {
        Progress::Continue
    } else {
        Progress::Stop
    }
}

/// Sends the next packet that is to go out, as the bytes that `encode` turns it
/// into. Where there is none, nothing is sent; where it cannot be sent, this was
/// the last one.
pub fn relay<
    Local: RPC,
    Remote: RPC,
    F: FnOnce(&Packet<Local, Remote>) -> Result<Vec<u8>, bincode::Error>,
>(
    sender: &PacketSender<Packet<Local, Remote>>,
    outgoing: Option<Packet<Local, Remote>>,
    encode: F,
) -> (progress: Progress)
    requires
        outgoing matches Some(packet) ==> encode.requires((&packet,)),
    ensures
        (match outgoing {
            Some(packet) => exists|serialized: Result<Vec<u8>, bincode::Error>| #[trigger]
                encode.ensures((&packet,), serialized) && (match serialized {
                    Ok(bytes) => match progress {
                        Progress::Continue => carried(sender.channel).contains(
                            Ok::<FrameView, ConnectionError>(FrameView::binary(bytes@)),
                        ),
                        Progress::Stop => abandoned(sender.channel),
                    },
                    Err(_) => progress == Progress::Stop,
                }),
            None => progress == Progress::Continue,
        }),
{
    match outgoing {
        Some(packet) => match sender.send(&packet, encode) {
            Ok(_) => proceed(true),
            Err(_) => proceed(false),
        },
        None => proceed(true),
    }
}

/// The sending end of a bounded channel of `tokio`, which outcomes go back on.
/// The library passes it on and never looks inside.
#[verifier::external_type_specification]
#[verifier::external_body]
#[verifier::reject_recursive_types(T)]
pub struct ExBoundedSender<T>(tokio::sync::mpsc::Sender<T>);

/// The receiving end of a bounded channel of `tokio`, which calls arrive on. The
/// library passes it on and never looks inside.
#[verifier::external_type_specification]
#[verifier::external_body]
#[verifier::reject_recursive_types(T)]
pub struct ExBoundedReceiver<T>(tokio::sync::mpsc::Receiver<T>);

/// A peer, with its calls of this side and the calls that it offers.
pub struct RpcPeer<A, S: RPC, C: RPC> {
    /// Its address.
    pub ip: A,
    /// Its token.
    pub token: u128,
    /// Where its calls arrive, each with the way back for what comes of it.
    pub rx: tokio::sync::mpsc::Receiver<(S::Message, tokio::sync::mpsc::Sender<S::Response>)>,
    /// What it offers.
    pub rpc: C,
}

impl<A, S: RPC, C: RPC> RpcPeer<A, S, C> {
    /// Takes in a peer that calls on `rx` and is called through `chan`.
    pub fn welcome(
        identity: Identity<A>,
        rx: tokio::sync::mpsc::Receiver<(S::Message, tokio::sync::mpsc::Sender<S::Response>)>,
        chan: response_channel::Sender<C::Message, C::Response>,
    ) -> (peer: Self)
        ensures
            peer.ip == identity.ip,
            peer.token == identity.token,
            peer.rx == rx,
            call_ensures(C::new, (chan,), peer.rpc),
    {
        RpcPeer { ip: identity.ip, token: identity.token, rx, rpc: C::new(chan) }
    }
}

/// The numbers that calls go out under.
pub struct PacketIds {
    /// The number of the next call.
    pub next: u64,
}

impl PacketIds {
    /// Starts from zero.
    pub fn new() -> (ids: Self)
        ensures
            ids.next == 0,
    {
        PacketIds { next: 0 }
    }

    /// Gives out the next number. After the largest comes zero again.
    pub fn take(&mut self) -> (id: u64)
        ensures
            id == old(self).next,
            final(self).next == number_after(old(self).next, 1),
    {
        let id = self.next;
        self.next = id.wrapping_add(1);
        id
    }
}

/// The number that comes after `count` others, counted from `first`.
pub open spec fn number_after(first: u64, count: nat) -> nat {
    (first + count) as nat % 0x1_0000_0000_0000_0000
}

/// Counting on by one from the number after some others gives the number after
/// one more.
pub proof fn numbers_count_up(first: u64, count: nat)
    ensures
        number_after(number_after(first, count) as u64, 1) == number_after(first, count + 1),
{
}

/// Numbers do not come twice until all of them have been given out.
pub proof fn numbers_do_not_repeat(first: u64, earlier: nat, later: nat)
    requires
        earlier < later < earlier + 0x1_0000_0000_0000_0000,
    ensures
        number_after(first, earlier) != number_after(first, later),
{
}

/// An answer goes back under the number of the call, and is a response.
pub proof fn answer_keeps_the_number<Local: RPC, Remote: RPC>(
    packet: Packet<Local, Remote>,
    response: Local::Response,
    answer: Packet<Remote, Local>,
)
    requires
        answer == (Packet::<Remote, Local>::Response { id: packet.spec_id(), data: response }),
    ensures
        answer.spec_id() == packet.spec_id(),
        spec_dispatch(Ok::<Option<Packet<Remote, Local>>, RecvError>(Some(answer))) == Dispatch::<
            Remote::Message,
        >::Continue,
{
}

/// A packet belongs to the call whose number it was made with.
pub proof fn packet_has_the_number_of_its_call<Local: RPC, Remote: RPC>(
    packet: &Packet<Local, Remote>,
    id: u64,
)
    requires
        call_ensures(Packet::<Local, Remote>::id, (packet,), id),
    ensures
        *packet matches Packet::Request { id: number, .. } ==> id == number,
        *packet matches Packet::Response { id: number, .. } ==> id == number,
        id == packet.spec_id(),
{
}

/// The answer to a packet is a response under its number that holds what it is
/// answered with.
pub proof fn packet_is_answered_under_its_number<Local: RPC, Remote: RPC>(
    packet: &Packet<Local, Remote>,
    response: Local::Response,
    answer: Packet<Remote, Local>,
)
    requires
        call_ensures(Packet::<Local, Remote>::respond, (packet, response), answer),
    ensures
        answer matches Packet::Response { id, data } && data == response && match *packet {
            Packet::Request { id: number, .. } => id == number,
            Packet::Response { id: number, .. } => id == number,
        },
{
}

/// The answer to a call of a given number is a response under that number that
/// holds what it is answered with.
pub proof fn call_is_answered_under_its_number<Local: RPC, Remote: RPC>(
    id: u64,
    response: Local::Response,
    packet: Packet<Remote, Local>,
)
    requires
        call_ensures(answer::<Local, Remote>, (id, response), packet),
    ensures
        packet matches Packet::Response { id: number, data } && number == id && data == response,
{
}

/// Every call that is received is delivered under its number and as it is,
/// whatever the number.
pub proof fn received_call_is_delivered<Local: RPC, Remote: RPC>(
    id: u64,
    data: Local::Message,
    decision: Dispatch<Local::Message>,
)
    requires
        call_ensures(
            dispatch::<Local, Remote>,
            (Ok(Some(Packet::Request { id, data })),),
            decision,
        ),
    ensures
        decision == (Dispatch::Deliver { id, data }),
        spec_dispatch::<Local, Remote>(Ok(Some(Packet::Request { id, data }))) == (
        Dispatch::Deliver { id, data }),
{
}

/// Responses, and that there is no packet, pass by. A failure ends receiving and
/// is passed on. Nothing but a call is delivered, and nothing but a failure ends
/// receiving.
pub proof fn only_calls_are_delivered<Local: RPC, Remote: RPC>(
    received: Result<Option<Packet<Local, Remote>>, RecvError>,
    decision: Dispatch<Local::Message>,
)
    requires
        call_ensures(dispatch::<Local, Remote>, (received,), decision),
    ensures
        decision is Continue <==> {
            ||| received matches Ok(Some(Packet::Response { .. }))
            ||| received matches Ok(None)
        },
        decision is Deliver <==> received matches Ok(Some(Packet::Request { .. })),
        decision is Stop <==> received is Err,
        received matches Err(error) ==> decision == Dispatch::<Local::Message>::Stop(error),
{
}

/// A call that is delivered is answered under the number that it was made with,
/// so that its caller knows the answer for that of the call.
pub proof fn delivered_call_is_answered_under_its_number<Local: RPC, Remote: RPC>(
    call: Packet<Local, Remote>,
    id: u64,
    data: Local::Message,
    response: Local::Response,
    packet: Packet<Remote, Local>,
)
    requires
        call_ensures(
            dispatch::<Local, Remote>,
            (Ok(Some(call)),),
            Dispatch::Deliver { id, data },
        ),
        call_ensures(answer::<Local, Remote>, (id, response), packet),
    ensures
        call == (Packet::<Local, Remote>::Request { id, data }),
        packet == (Packet::<Remote, Local>::Response { id, data: response }),
{
}

/// A peer goes on exactly where what it handed over was taken.
pub proof fn taken_is_gone_on_from(accepted: bool, progress: Progress)
    requires
        call_ensures(proceed, (accepted,), progress),
    ensures
        accepted ==> progress == Progress::Continue,
        !accepted ==> progress == Progress::Stop,
{
}

/// Where there is no packet to go out, a peer goes on.
pub proof fn nothing_to_relay_is_gone_on_from<
    Local: RPC,
    Remote: RPC,
    F: FnOnce(&Packet<Local, Remote>) -> Result<Vec<u8>, bincode::Error>,
>(sender: &PacketSender<Packet<Local, Remote>>, encode: F, progress: Progress)
    requires
        call_ensures(relay::<Local, Remote, F>, (sender, None, encode), progress),
    ensures
        progress == Progress::Continue,
{
}

/// A packet that goes out is carried in a whole binary frame as the bytes that
/// `encode` turns it into, and the peer goes on; or nobody takes frames any more,
/// and it ends.
pub proof fn packet_is_relayed_as_encoded<
    Local: RPC,
    Remote: RPC,
    F: FnOnce(&Packet<Local, Remote>) -> Result<Vec<u8>, bincode::Error>,
>(
    sender: &PacketSender<Packet<Local, Remote>>,
    packet: Packet<Local, Remote>,
    encode: F,
    bytes: Seq<u8>,
    progress: Progress,
)
    requires
        encode.requires((&packet,)),
        call_ensures(relay::<Local, Remote, F>, (sender, Some(packet), encode), progress),
        forall|serialized: Result<Vec<u8>, bincode::Error>| #[trigger]
            encode.ensures((&packet,), serialized) ==> (serialized matches Ok(encoded) && encoded@
                == bytes),
    ensures
        progress == Progress::Continue ==> carried(sender.channel).contains(
            Ok::<FrameView, ConnectionError>(
                FrameView { fin: true, opcode: OpCode::Binary, payload: bytes },
            ),
        ),
        progress == Progress::Stop ==> abandoned(sender.channel),
{
}

/// A packet that `encode` fails on ends what a peer sends.
pub proof fn packet_that_is_not_encoded_is_the_last<
    Local: RPC,
    Remote: RPC,
    F: FnOnce(&Packet<Local, Remote>) -> Result<Vec<u8>, bincode::Error>,
>(
    sender: &PacketSender<Packet<Local, Remote>>,
    packet: Packet<Local, Remote>,
    encode: F,
    progress: Progress,
)
    requires
        encode.requires((&packet,)),
        call_ensures(relay::<Local, Remote, F>, (sender, Some(packet), encode), progress),
        forall|serialized: Result<Vec<u8>, bincode::Error>| #[trigger]
            encode.ensures((&packet,), serialized) ==> serialized is Err,
    ensures
        progress == Progress::Stop,
{
}

/// A peer that is taken in keeps its address and its token, and its calls arrive
/// where they were said to.
pub proof fn welcomed_peer_keeps_its_identity<A, S: RPC, C: RPC>(
    identity: Identity<A>,
    rx: tokio::sync::mpsc::Receiver<(S::Message, tokio::sync::mpsc::Sender<S::Response>)>,
    chan: response_channel::Sender<C::Message, C::Response>,
    peer: RpcPeer<A, S, C>,
)
    requires
        call_ensures(RpcPeer::<A, S, C>::welcome, (identity, rx, chan), peer),
    ensures
        peer.ip == identity.ip,
        peer.token == identity.token,
        peer.rx == rx,
        call_ensures(C::new, (chan,), peer.rpc),
{
}

/// Numbers are given out from zero on, each one more than the one before, until
/// the largest; after that comes zero again.
pub proof fn numbers_are_given_out_in_turn(fresh: PacketIds, ids: &mut PacketIds, id: u64)
    requires
        call_ensures(PacketIds::new, (), fresh),
        call_ensures(PacketIds::take, (ids,), id),
    ensures
        fresh.next == 0,
        id == old(ids).next,
        id < u64::MAX ==> final(ids).next == id + 1,
        id == u64::MAX ==> final(ids).next == 0,
{
}

/// The number after some others is that many more, as long as there is such a
/// number. Counting on from there through all numbers comes back to it.
pub proof fn numbers_are_counted(first: u64, count: nat)
    ensures
        first + count <= u64::MAX ==> number_after(first, count) == first + count,
        number_after(first, count + 0x1_0000_0000_0000_0000) == number_after(first, count),
        number_after(first, count) <= u64::MAX,
{
}

} // verus!
