use sqwerk::error::RecvError;
use sqwerk::packet::create_channels;
use sqwerk::peer::Identity;
use sqwerk::rpc::client::{self, Client};
use sqwerk::rpc::server::{self, Server};
use sqwerk::rpc::{
    answer, dispatch, proceed, relay, Dispatch, Packet, PacketIds, Progress, RpcPeer, RPC,
};

type FromClient = Packet<Server, Client>;
type FromServer = Packet<Client, Server>;

fn login() -> server::Message {
    server::Message::Login { login: String::from("ann"), password: String::from("pw") }
}

#[test]
fn packet_knows_its_number() {
    let call: FromClient = Packet::Request { id: 7, data: login() };
    assert_eq!(call.id(), 7);
    let outcome: FromClient = Packet::Response { id: 9, data: client::Response::Notify(()) };
    assert_eq!(outcome.id(), 9);
}

#[test]
fn answer_goes_back_under_the_same_number() {
    let call: FromClient = Packet::Request { id: 7, data: login() };
    let answer: FromServer = call.respond(server::Response::Login(String::from("TOKEN")));
    assert_eq!(answer.id(), 7);
    assert!(matches!(
        answer,
        Packet::Response { id: 7, data: server::Response::Login(text) } if text == "TOKEN"
    ));
}

#[test]
fn answer_bears_the_number_it_is_given() {
    let packet = answer::<Server, Client>(8, server::Response::Login(String::from("TOKEN")));
    assert!(matches!(
        packet,
        Packet::Response { id: 8, data: server::Response::Login(text) } if text == "TOKEN"
    ));
}

#[test]
fn calls_are_delivered() {
    let call: FromClient = Packet::Request { id: 3, data: login() };
    assert!(matches!(
        dispatch(Ok(Some(call))),
        Dispatch::Deliver { id: 3, data: server::Message::Login { login, .. } } if login == "ann"
    ));
}

#[test]
fn everything_else_passes_by() {
    let outcome: FromClient = Packet::Response { id: 3, data: client::Response::Notify(()) };
    assert!(matches!(dispatch(Ok(Some(outcome))), Dispatch::Continue));
    assert!(matches!(dispatch::<Server, Client>(Ok(None)), Dispatch::Continue));
}

#[test]
fn failure_ends_the_calls() {
    assert!(matches!(
        dispatch::<Server, Client>(Err(RecvError::ChannelClosed)),
        Dispatch::Stop(RecvError::ChannelClosed)
    ));
}

#[test]
fn going_on_takes_acceptance() {
    assert_eq!(proceed(true), Progress::Continue);
    assert_eq!(proceed(false), Progress::Stop);
}

#[test]
fn outgoing_packets_are_relayed() {
    let (_receiver, sender, mut connection) = create_channels::<FromServer>();
    let answer: FromServer =
        Packet::Response { id: 5, data: server::Response::Connect(()) };
    let number = |packet: &FromServer| bincode::serialize(&packet.id());
    assert_eq!(relay(&sender, Some(answer), number), Progress::Continue);
    let sent = connection.out_r.try_recv().ok().unwrap().ok().unwrap();
    assert_eq!(sent.payload, vec![5, 0, 0, 0, 0, 0, 0, 0]);
    assert_eq!(relay(&sender, None, number), Progress::Continue);
    assert!(connection.out_r.try_recv().is_err());
}

#[test]
fn relaying_stops_when_nothing_can_be_sent() {
    let (_receiver, sender, connection) = create_channels::<FromServer>();
    let answer = || -> FromServer {
        Packet::Response { id: 5, data: server::Response::Connect(()) }
    };
    let broken = |_: &FromServer| Err(bincode::deserialize::<u64>(&[1]).unwrap_err());
    assert_eq!(relay(&sender, Some(answer()), broken), Progress::Stop);
    drop(connection);
    let number = |packet: &FromServer| bincode::serialize(&packet.id());
    assert_eq!(relay(&sender, Some(answer()), number), Progress::Stop);
}

#[test]
fn numbers_count_up_and_wrap() {
    let mut ids = PacketIds::new();
    assert_eq!(ids.take(), 0);
    assert_eq!(ids.take(), 1);
    assert_eq!(ids.take(), 2);
    ids.next = u64::MAX;
    assert_eq!(ids.take(), u64::MAX);
    assert_eq!(ids.take(), 0);
}

#[test]
fn outcomes_fit_their_calls() {
    assert!(client::Response::Notify(()).into_notify().is_ok());
    assert!(server::Response::Connect(()).into_connect().is_ok());
    assert!(matches!(
        server::Response::Connect(()).into_login(),
        Err(server::Response::Connect(()))
    ));
    let signed_in = server::Response::Login(String::from("TOKEN"));
    assert!(matches!(signed_in.into_login(), Ok(text) if text == "TOKEN"));
    let signed_in = server::Response::Login(String::from("TOKEN"));
    assert!(matches!(
        signed_in.into_connect(),
        Err(server::Response::Login(text)) if text == "TOKEN"
    ));
}

#[test]
fn peer_is_welcomed() {
    let (_calls, calls_rx) = response_channel::channel::<server::Message, server::Response>(1, None);
    let (chan, _outgoing) = response_channel::channel::<client::Message, client::Response>(1, None);
    let identity = Identity { ip: 4u32, token: 8 };
    let peer: RpcPeer<u32, Server, Client> = RpcPeer::welcome(identity, calls_rx, chan);
    assert_eq!(peer.ip, 4);
    assert_eq!(peer.token, 8);
}

#[test]
fn calls_go_through_the_channel_given() {
    let (chan, mut calls) = response_channel::channel::<server::Message, server::Response>(1, None);
    let server = Server::new(chan);
    assert!(calls.try_recv().is_err());
    drop(server);
    assert!(matches!(
        calls.try_recv(),
        Err(tokio::sync::mpsc::error::TryRecvError::Disconnected)
    ));
}
