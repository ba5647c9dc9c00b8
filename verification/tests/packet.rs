use sqwerk::channel::{Item, Polled};
use sqwerk::error::{ConnectionError, RecvError, SendError};
use sqwerk::frame::{Frame, OpCode};
use sqwerk::packet::{acknowledge, create_channels, deliver, PacketReceiver, PacketSender};

fn encode(packet: &u32) -> Result<Vec<u8>, bincode::Error> {
    bincode::serialize(packet)
}

fn decode(payload: &[u8]) -> Result<u32, bincode::Error> {
    bincode::deserialize(payload)
}

fn codec_error() -> bincode::Error {
    bincode::deserialize::<u64>(&[1]).unwrap_err()
}

fn frame(opcode: OpCode, payload: &[u8]) -> Frame {
    Frame { fin: true, opcode, payload: payload.to_vec() }
}

fn receiver() -> PacketReceiver<u32> {
    create_channels().0
}

fn next(item: Result<Item, tokio::sync::mpsc::error::TryRecvError>) -> Frame {
    item.ok().unwrap().ok().unwrap()
}

#[test]
fn close_frame_matches_the_websocket() {
    let frame = Frame::close(1000, &[7, 8]);
    let outside = fastwebsockets::Frame::close(1000, &[7, 8]);
    assert_eq!(frame.payload, vec![3, 232, 7, 8]);
    assert_eq!(frame.payload, outside.payload.to_vec());
    assert_eq!(frame.fin, outside.fin);
    assert_eq!(frame.opcode, OpCode::Close);
    assert_eq!(outside.opcode, fastwebsockets::OpCode::Close);
}

#[test]
fn binary_frame_matches_the_websocket() {
    let frame = Frame::binary(vec![1, 2, 3]);
    let outside = fastwebsockets::Frame::binary(vec![1, 2, 3].into());
    assert_eq!(frame.payload, outside.payload.to_vec());
    assert_eq!(frame.fin, outside.fin);
    assert_eq!(frame.opcode, OpCode::Binary);
    assert_eq!(outside.opcode, fastwebsockets::OpCode::Binary);
}

#[test]
fn kinds_of_frame_that_carry_packets() {
    assert!(OpCode::Text.carries_packet());
    assert!(OpCode::Binary.carries_packet());
    assert!(OpCode::Close.carries_packet());
    assert!(!OpCode::Continuation.carries_packet());
    assert!(!OpCode::Ping.carries_packet());
    assert!(!OpCode::Pong.carries_packet());
}

#[test]
fn sent_packet_leaves_as_a_binary_frame() {
    let (_receiver, sender, mut connection) = create_channels::<u32>();
    assert!(sender.send(&0x0102_0304, encode).is_ok());
    let sent = next(connection.out_r.try_recv());
    assert_eq!(sent.opcode, OpCode::Binary);
    assert!(sent.fin);
    assert_eq!(sent.payload, vec![4, 3, 2, 1]);
}

#[test]
fn ping_leaves_empty() {
    let (_receiver, sender, mut connection) = create_channels::<u32>();
    assert!(sender.ping().is_ok());
    let sent = next(connection.out_r.try_recv());
    assert_eq!(sent.opcode, OpCode::Ping);
    assert!(sent.fin);
    assert!(sent.payload.is_empty());
}

#[test]
fn last_packet_leaves_behind_the_code() {
    let (_receiver, sender, mut connection) = create_channels::<u32>();
    assert!(sender.close(0x0fa0, &1, encode).is_ok());
    let sent = next(connection.out_r.try_recv());
    assert_eq!(sent.opcode, OpCode::Close);
    assert_eq!(sent.payload, vec![0x0f, 0xa0, 1, 0, 0, 0]);
}

#[test]
fn packet_that_cannot_be_written_is_not_sent() {
    let (_receiver, sender, mut connection) = create_channels::<u32>();
    assert!(matches!(sender.send(&1, |_| Err(codec_error())), Err(SendError::Serialize(_))));
    assert!(matches!(sender.close(1000, &1, |_| Err(codec_error())), Err(SendError::Serialize(_))));
    assert!(matches!(sender.send_serialized(Err(codec_error())), Err(SendError::Serialize(_))));
    assert!(matches!(
        sender.close_serialized(1000, Err(codec_error())),
        Err(SendError::Serialize(_))
    ));
    assert!(connection.out_r.try_recv().is_err());
}

#[test]
fn nothing_is_sent_on_a_closed_channel() {
    let (_receiver, sender, connection) = create_channels::<u32>();
    drop(connection);
    assert!(matches!(sender.ping(), Err(SendError::ChannelClosed)));
    assert!(matches!(sender.send(&1, encode), Err(SendError::ChannelClosed)));
    assert!(matches!(sender.close(1000, &1, encode), Err(SendError::ChannelClosed)));
    assert!(matches!(acknowledge(false), Err(SendError::ChannelClosed)));
    assert!(acknowledge(true).is_ok());
}

#[test]
fn copies_of_a_sender_share_its_channel() {
    let (_receiver, sender, mut connection) = create_channels::<u32>();
    let copy: PacketSender<u32> = sender.clone();
    assert!(sender.send(&1, encode).is_ok());
    assert!(copy.send(&2, encode).is_ok());
    assert_eq!(next(connection.out_r.try_recv()).payload, vec![1, 0, 0, 0]);
    assert_eq!(next(connection.out_r.try_recv()).payload, vec![2, 0, 0, 0]);
}

#[test]
fn connection_adds_to_what_the_user_sends() {
    let (_receiver, sender, mut connection) = create_channels::<u32>();
    assert!(deliver(&mut connection.out_s, frame(OpCode::Pong, &[9])).is_ok());
    assert!(sender.ping().is_ok());
    assert_eq!(next(connection.out_r.try_recv()).opcode, OpCode::Pong);
    assert_eq!(next(connection.out_r.try_recv()).opcode, OpCode::Ping);
}

#[test]
fn packets_are_received_in_order() {
    let (mut receiver, _sender, connection) = create_channels::<u32>();
    assert!(matches!(receiver.try_recv(decode), Ok(None)));
    assert!(connection.in_s.send(Ok(frame(OpCode::Binary, &[1, 0, 0, 0]))).is_ok());
    assert!(connection.in_s.send(Ok(frame(OpCode::Text, &[2, 0, 0, 0]))).is_ok());
    assert!(matches!(receiver.try_recv(decode), Ok(Some(1))));
    assert!(matches!(receiver.try_recv(decode), Ok(Some(2))));
    assert!(matches!(receiver.try_recv(decode), Ok(None)));
}

#[test]
fn what_is_sent_is_received() {
    let (mut receiver, _, connection) = create_channels::<u32>();
    let (_far, sender, mut far_connection) = create_channels::<u32>();
    for packet in [0, 1, 77, u32::MAX] {
        assert!(sender.send(&packet, encode).is_ok());
        let sent = next(far_connection.out_r.try_recv());
        assert!(connection.in_s.send(Ok(sent)).is_ok());
        assert!(matches!(receiver.try_recv(decode), Ok(Some(read)) if read == packet));
    }
    assert!(!receiver.is_closed());
}

#[test]
fn receiver_learns_that_nothing_is_left() {
    let (mut receiver, _sender, connection) = create_channels::<u32>();
    assert!(connection.in_s.send(Ok(frame(OpCode::Binary, &[1, 0, 0, 0]))).is_ok());
    drop(connection);
    assert!(matches!(receiver.try_recv(decode), Ok(Some(1))));
    assert!(matches!(receiver.try_recv(decode), Err(RecvError::ChannelClosed)));
    assert!(!receiver.is_closed());
}

#[test]
fn close_frame_closes_the_receiver() {
    let (mut receiver, _sender, connection) = create_channels::<u32>();
    assert!(connection.in_s.send(Ok(frame(OpCode::Close, &[5, 0, 0, 0]))).is_ok());
    assert!(connection.in_s.send(Ok(frame(OpCode::Binary, &[6, 0, 0, 0]))).is_ok());
    assert!(!receiver.is_closed());
    assert!(matches!(receiver.try_recv(decode), Ok(Some(5))));
    assert!(receiver.is_closed());
    assert!(matches!(receiver.try_recv(decode), Err(RecvError::ChannelClosed)));
    assert!(matches!(receiver.recv(None, decode), Err(RecvError::ChannelClosed)));
    assert!(receiver.is_closed());
    assert!(receiver.channel.try_recv().is_ok());
}

#[test]
fn closing_packet_is_read_with_its_code() {
    let (_receiver, sender, mut connection) = create_channels::<u32>();
    assert!(sender.close(0x0102, &0x0a0b_0c0d, encode).is_ok());
    let sent = next(connection.out_r.try_recv());
    let mut receiver = receiver();
    assert!(matches!(receiver.process(Ok(sent), decode), Ok(Some(0x0c0d_0201))));
    assert!(receiver.is_closed());
}

#[test]
fn close_frame_without_a_packet_does_not_close() {
    let mut receiver = receiver();
    assert!(matches!(
        receiver.process(Ok(frame(OpCode::Close, &[5])), decode),
        Err(RecvError::Deserialize(_))
    ));
    assert!(!receiver.is_closed());
    assert!(matches!(
        receiver.accept(OpCode::Close, Err(codec_error())),
        Err(RecvError::Deserialize(_))
    ));
    assert!(!receiver.is_closed());
    assert!(matches!(receiver.accept(OpCode::Binary, Ok(3)), Ok(Some(3))));
    assert!(!receiver.is_closed());
    assert!(matches!(receiver.accept(OpCode::Close, Ok(3)), Ok(Some(3))));
    assert!(receiver.is_closed());
}

#[test]
fn other_frames_pass_by() {
    let mut receiver = receiver();
    for opcode in [OpCode::Ping, OpCode::Pong, OpCode::Continuation] {
        let payload = [1, 0, 0, 0];
        assert!(matches!(receiver.process(Ok(frame(opcode, &payload)), decode), Ok(None)));
    }
    assert!(!receiver.is_closed());
}

#[test]
fn failure_of_the_connection_is_passed_on() {
    let mut receiver = receiver();
    let failure = fastwebsockets::WebSocketError::ConnectionClosed;
    assert!(matches!(
        receiver.process(Err(ConnectionError::Protocol(failure)), decode),
        Err(RecvError::WebSocket(ConnectionError::Protocol(
            fastwebsockets::WebSocketError::ConnectionClosed
        )))
    ));
    assert!(!receiver.is_closed());
}

#[test]
fn awaited_items_are_taken_in() {
    let mut receiver = receiver();
    assert!(matches!(receiver.recv(None, decode), Ok(None)));
    let item = Ok(frame(OpCode::Binary, &[9, 0, 0, 0]));
    assert!(matches!(receiver.recv(Some(item), decode), Ok(Some(9))));
    let item = Ok(frame(OpCode::Close, &[9, 0, 0, 0]));
    assert!(matches!(receiver.recv(Some(item), decode), Ok(Some(9))));
    let item = Ok(frame(OpCode::Binary, &[9, 0, 0, 0]));
    assert!(matches!(receiver.recv(Some(item), decode), Err(RecvError::ChannelClosed)));
}

#[test]
fn looks_at_the_channel_are_taken_in() {
    let mut receiver = receiver();
    let item = Ok(frame(OpCode::Binary, &[9, 0, 0, 0]));
    assert!(matches!(receiver.take_polled(Polled::Ready(item), decode), Ok(Some(9))));
    assert!(matches!(receiver.take_polled(Polled::Empty, decode), Ok(None)));
    assert!(matches!(
        receiver.take_polled(Polled::Disconnected, decode),
        Err(RecvError::ChannelClosed)
    ));
}

#[test]
fn looking_ends_as_waiting_does() {
    for opcode in [OpCode::Binary, OpCode::Text, OpCode::Close, OpCode::Ping, OpCode::Pong] {
        for payload in [vec![9, 0, 0, 0], vec![9]] {
            let (mut looking, _sender, connection) = create_channels::<u32>();
            assert!(connection.in_s.send(Ok(frame(opcode, &payload))).is_ok());
            let looked = looking.try_recv(decode);

            let mut polling = receiver();
            let polled = Polled::Ready(Ok(frame(opcode, &payload)));
            let polled = polling.take_polled(polled, decode);

            let mut waiting = receiver();
            let waited = waiting.recv(Some(Ok(frame(opcode, &payload))), decode);

            assert_eq!(looked.as_ref().ok(), waited.as_ref().ok());
            assert_eq!(polled.as_ref().ok(), waited.as_ref().ok());
            assert_eq!(looking.is_closed(), waiting.is_closed());
            assert_eq!(polling.is_closed(), waiting.is_closed());
        }
    }
}

#[test]
fn lost_connection_is_told_to_its_user() {
    let (mut receiver, sender, connection) = create_channels::<u32>();
    drop(connection);
    assert!(matches!(sender.send(&1, encode), Err(SendError::ChannelClosed)));
    assert!(matches!(receiver.try_recv(decode), Err(RecvError::ChannelClosed)));
    let awaited = receiver.channel.blocking_recv();
    assert!(awaited.is_none());
    assert!(matches!(receiver.recv(awaited, decode), Ok(None)));
    assert!(!receiver.is_closed());
}

#[test]
fn closed_sender_still_sends() {
    let (_receiver, sender, mut connection) = create_channels::<u32>();
    assert!(sender.close(1000, &1, encode).is_ok());
    assert!(sender.send(&2, encode).is_ok());
    assert_eq!(next(connection.out_r.try_recv()).opcode, OpCode::Close);
    let sent = next(connection.out_r.try_recv());
    assert_eq!(sent.opcode, OpCode::Binary);
    assert_eq!(sent.payload, vec![2, 0, 0, 0]);
}

#[test]
fn copy_outlives_the_sender() {
    let (_receiver, sender, mut connection) = create_channels::<u32>();
    let copy = sender.clone();
    drop(sender);
    assert!(connection.out_r.try_recv().is_err());
    assert!(copy.send(&3, encode).is_ok());
    assert_eq!(next(connection.out_r.try_recv()).payload, vec![3, 0, 0, 0]);
    drop(connection);
    assert!(matches!(copy.ping(), Err(SendError::ChannelClosed)));
}

#[test]
fn errors_have_words() {
    assert_eq!(SendError::ChannelClosed.message(), "channel closed");
    assert_eq!(SendError::from(codec_error()).message(), "serialization failed");
    assert_eq!(RecvError::ChannelClosed.message(), "channel closed");
    assert_eq!(RecvError::from(codec_error()).message(), "deserialization failed");
    assert_eq!(RecvError::from(ConnectionError::InvalidUri).message(), "websocket error");
}

#[test]
fn delivery_to_nobody_is_refused() {
    let (_receiver, _sender, connection) = create_channels::<u32>();
    let mut out_s = connection.out_s;
    assert!(deliver(&mut out_s, Frame::ping()).is_ok());
    drop(connection.out_r);
    assert!(matches!(deliver(&mut out_s, Frame::ping()), Err(SendError::ChannelClosed)));
}

#[test]
fn last_packet_ends_a_run_of_calls() {
    let (mut receiver, _sender, connection) = create_channels::<u32>();
    for item in [
        frame(OpCode::Binary, &[1, 0, 0, 0]),
        frame(OpCode::Close, &[2]),
        frame(OpCode::Ping, &[]),
        frame(OpCode::Close, &[3, 0, 0, 0]),
        frame(OpCode::Binary, &[4, 0, 0, 0]),
    ] {
        assert!(connection.in_s.send(Ok(item)).is_ok());
    }
    assert!(matches!(receiver.try_recv(decode), Ok(Some(1))));
    assert!(matches!(receiver.try_recv(decode), Err(RecvError::Deserialize(_))));
    assert!(matches!(receiver.try_recv(decode), Ok(None)));
    assert!(!receiver.is_closed());
    assert!(matches!(receiver.try_recv(decode), Ok(Some(3))));
    assert!(receiver.is_closed());
    for _ in 0..3 {
        assert!(matches!(receiver.try_recv(decode), Err(RecvError::ChannelClosed)));
        assert!(matches!(receiver.recv(None, decode), Err(RecvError::ChannelClosed)));
    }
    assert!(receiver.is_closed());
}
