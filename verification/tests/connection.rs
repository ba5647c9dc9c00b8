use sqwerk::connection::{Action, Connection, Connector, Event, Phase, Task};
use sqwerk::error::ConnectionError;
use sqwerk::frame::{Frame, OpCode};
use sqwerk::interval::{TimedInterval, NANOS_PER_SEC};
use sqwerk::packet::create_channels;
use sqwerk::worker::{
    forward, inbound, inbound_step, outbound, Forward, InboundStep, OutboundEvent, OutboundStep,
};

fn act(report: Option<Connection>, task: Task) -> Option<Action> {
    Some(Action { report, task })
}

#[test]
fn first_connection_is_primary() {
    let mut connector = Connector::new(5 * NANOS_PER_SEC, 3);
    assert_eq!(connector.phase, Phase::Connecting);
    assert_eq!(
        connector.step(Event::Dialed(true)),
        act(Some(Connection::Established(true)), Task::Run)
    );
    assert_eq!(connector.phase, Phase::Running);
}

#[test]
fn first_failure_gives_up() {
    let mut connector = Connector::new(5 * NANOS_PER_SEC, 3);
    assert_eq!(connector.step(Event::Dialed(false)), act(None, Task::GiveUp));
    assert_eq!(connector.phase, Phase::Over);
    for event in [Event::Dialed(true), Event::Ended, Event::Paused(u128::MAX)] {
        assert_eq!(connector.step(event), None);
        assert_eq!(connector.phase, Phase::Over);
    }
}

#[test]
fn lost_connection_is_made_again() {
    let mut connector = Connector::new(5 * NANOS_PER_SEC, 3);
    connector.step(Event::Dialed(true));
    assert_eq!(connector.step(Event::Ended), act(Some(Connection::Reconnecting), Task::Dial));
    assert_eq!(connector.step(Event::Dialed(false)), act(None, Task::Pause));
    assert_eq!(
        connector.step(Event::Paused(1)),
        act(Some(Connection::Reconnecting), Task::Dial)
    );
    assert_eq!(
        connector.step(Event::Dialed(true)),
        act(Some(Connection::Established(false)), Task::Run)
    );
    assert_eq!(connector.phase, Phase::Running);
}

#[test]
fn redialing_goes_on_without_a_limit() {
    let mut connector = Connector::new(1 * NANOS_PER_SEC, 1);
    connector.step(Event::Dialed(true));
    connector.step(Event::Ended);
    for pause in 0..100u128 {
        assert_eq!(connector.step(Event::Dialed(false)), act(None, Task::Pause));
        assert_eq!(
            connector.step(Event::Paused(pause * 1000 * NANOS_PER_SEC)),
            act(Some(Connection::Reconnecting), Task::Dial)
        );
    }
}

#[test]
fn redialing_ends_at_the_limit() {
    let mut connector = Connector::new(2 * NANOS_PER_SEC, 3);
    connector.step(Event::Dialed(true));
    connector.step(Event::Ended);
    connector.interval.begin(0);
    connector.step(Event::Dialed(false));
    assert_eq!(
        connector.step(Event::Paused(6 * NANOS_PER_SEC - 1)),
        act(Some(Connection::Reconnecting), Task::Dial)
    );
    connector.step(Event::Dialed(false));
    assert_eq!(
        connector.step(Event::Paused(6 * NANOS_PER_SEC)),
        act(Some(Connection::Disconnected), Task::GiveUp)
    );
    assert_eq!(connector.phase, Phase::Over);
}

#[test]
fn success_takes_the_limit_away() {
    let mut connector = Connector::new(2 * NANOS_PER_SEC, 3);
    connector.step(Event::Dialed(true));
    connector.step(Event::Ended);
    connector.interval.begin(0);
    connector.step(Event::Dialed(true));
    assert_eq!(connector.interval.timeout, None);
}

#[test]
fn unexpected_events_change_nothing() {
    let mut connector = Connector::new(5 * NANOS_PER_SEC, 3);
    assert_eq!(connector.step(Event::Ended), None);
    assert_eq!(connector.step(Event::Paused(0)), None);
    assert_eq!(connector.phase, Phase::Connecting);
    connector.step(Event::Dialed(true));
    assert_eq!(connector.step(Event::Dialed(true)), None);
    assert_eq!(connector.phase, Phase::Running);
}

#[test]
fn reports_come_in_turn() {
    let mut connector = Connector::new(5 * NANOS_PER_SEC, 3);
    let mut heard = Vec::new();
    for event in [
        Event::Dialed(true),
        Event::Ended,
        Event::Dialed(false),
        Event::Paused(9),
        Event::Dialed(true),
        Event::Ended,
    ] {
        if let Some(Action { report: Some(report), .. }) = connector.step(event) {
            heard.push(report);
        }
    }
    assert_eq!(
        heard,
        vec![
            Connection::Established(true),
            Connection::Reconnecting,
            Connection::Reconnecting,
            Connection::Established(false),
            Connection::Reconnecting,
        ]
    );
}

#[test]
fn interval_expires_after_its_pauses() {
    let mut interval = TimedInterval::from(4 * NANOS_PER_SEC, 10);
    assert!(!interval.check_expired(u128::MAX));
    interval.begin(7);
    assert_eq!(interval.timeout, Some(7 + 40 * NANOS_PER_SEC));
    assert!(!interval.check_expired(6 + 40 * NANOS_PER_SEC));
    assert!(interval.check_expired(7 + 40 * NANOS_PER_SEC));
    interval.reset();
    assert!(!interval.check_expired(u128::MAX));
}

#[test]
fn interval_without_whole_seconds_expires_at_once() {
    let mut interval = TimedInterval::from(NANOS_PER_SEC - 1, 10);
    interval.begin(7);
    assert!(interval.check_expired(7));
}

#[test]
fn parts_of_a_second_do_not_count() {
    let mut interval = TimedInterval::from(2 * NANOS_PER_SEC + NANOS_PER_SEC / 2, 3);
    interval.begin(0);
    assert_eq!(interval.timeout, Some(6 * NANOS_PER_SEC));
}

fn failure() -> ConnectionError {
    ConnectionError::Protocol(fastwebsockets::WebSocketError::UnexpectedEOF)
}

fn text_frame() -> Frame {
    Frame { fin: true, opcode: OpCode::Text, payload: vec![1] }
}

#[test]
fn read_frame_goes_to_the_user() {
    let (mut receiver, _sender, mut connection) = create_channels::<u32>();
    let step = inbound(Ok(text_frame()), &mut connection.in_s, &mut connection.out_s);
    assert_eq!(step, InboundStep::Continue);
    assert!(matches!(receiver.channel.try_recv(), Ok(Ok(frame)) if frame.payload == vec![1]));
}

#[test]
fn reading_ends_without_a_user() {
    let (receiver, _sender, mut connection) = create_channels::<u32>();
    drop(receiver);
    let step = inbound(Ok(text_frame()), &mut connection.in_s, &mut connection.out_s);
    assert_eq!(step, InboundStep::ChannelClosed);
}

#[test]
fn failed_read_reaches_the_writer() {
    let (mut receiver, _sender, mut connection) = create_channels::<u32>();
    let step = inbound(Err(failure()), &mut connection.in_s, &mut connection.out_s);
    assert_eq!(step, InboundStep::Failed);
    assert!(receiver.channel.try_recv().is_err());
    let item = connection.out_r.try_recv().ok().unwrap();
    assert!(matches!(
        item,
        Err(ConnectionError::Protocol(fastwebsockets::WebSocketError::UnexpectedEOF))
    ));
    assert!(matches!(outbound(OutboundEvent::Received(Some(item))), OutboundStep::Stop));
}

#[test]
fn failed_read_without_a_writer_is_told_apart() {
    let (_receiver, _sender, mut connection) = create_channels::<u32>();
    drop(connection.out_r);
    let step = inbound(Err(failure()), &mut connection.in_s, &mut connection.out_s);
    assert_eq!(step, InboundStep::Unreported);
}

#[test]
fn steps_of_the_reader() {
    assert_eq!(inbound_step(true, true), InboundStep::Continue);
    assert_eq!(inbound_step(true, false), InboundStep::ChannelClosed);
    assert_eq!(inbound_step(false, true), InboundStep::Failed);
    assert_eq!(inbound_step(false, false), InboundStep::Unreported);
}

#[test]
fn writer_writes_what_comes() {
    let event = OutboundEvent::Received(Some(Ok(text_frame())));
    assert!(matches!(outbound(event), OutboundStep::Write(frame) if frame.payload == vec![1]));
    assert!(matches!(outbound(OutboundEvent::Written(true)), OutboundStep::Receive));
}

#[test]
fn writer_stops() {
    assert!(matches!(outbound(OutboundEvent::Received(None)), OutboundStep::Stop));
    assert!(matches!(outbound(OutboundEvent::Received(Some(Err(failure())))), OutboundStep::Stop));
    assert!(matches!(outbound(OutboundEvent::Written(false)), OutboundStep::Stop));
}

#[test]
fn frames_go_to_the_user_and_errors_to_the_writer() {
    assert!(matches!(
        forward(Ok(text_frame())),
        Forward::ToUser(frame) if frame.payload == text_frame().payload
    ));
    assert!(matches!(
        forward(Err(ConnectionError::InvalidUri)),
        Forward::ToWriter(ConnectionError::InvalidUri)
    ));
}

#[test]
fn frames_come_to_the_user_in_order() {
    let (mut receiver, _sender, mut connection) = create_channels::<u32>();
    for number in 0..5 {
        let frame = Frame { payload: vec![number], ..text_frame() };
        let step = inbound(Ok(frame), &mut connection.in_s, &mut connection.out_s);
        assert_eq!(step, InboundStep::Continue);
    }
    assert!(connection.out_r.try_recv().is_err());
    let step = inbound(Err(failure()), &mut connection.in_s, &mut connection.out_s);
    assert_eq!(step, InboundStep::Failed);
    for number in 0..5 {
        assert!(matches!(
            receiver.channel.try_recv(),
            Ok(Ok(frame)) if frame.payload == vec![number]
        ));
    }
    assert!(receiver.channel.try_recv().is_err());
    assert!(matches!(connection.out_r.try_recv(), Ok(Err(_))));
    assert!(connection.out_r.try_recv().is_err());
}

#[test]
fn writer_writes_in_order_until_it_stops() {
    let mut line = (0..4)
        .map(|number| Ok(Frame { payload: vec![number], ..text_frame() }))
        .chain([Err(failure())])
        .collect::<Vec<_>>()
        .into_iter();
    let mut written = Vec::new();
    let mut event = OutboundEvent::Received(line.next());
    loop {
        event = match outbound(event) {
            OutboundStep::Write(frame) => {
                written.push(frame.payload[0]);
                OutboundEvent::Written(true)
            }
            OutboundStep::Receive => OutboundEvent::Received(line.next()),
            OutboundStep::Stop => break,
        };
    }
    assert_eq!(written, vec![0, 1, 2, 3]);
    assert!(line.next().is_none());
}

#[test]
fn reports_tell_how_each_dialing_went() {
    let mut connector = Connector::new(NANOS_PER_SEC, 1);
    let mut heard = Vec::new();
    for event in [
        Event::Dialed(true),
        Event::Ended,
        Event::Dialed(false),
        Event::Ended,
        Event::Paused(1),
        Event::Dialed(false),
        Event::Paused(u128::MAX),
        Event::Dialed(true),
        Event::Dialed(true),
        Event::Ended,
        Event::Dialed(true),
        Event::Ended,
    ] {
        if let Some(Action { report: Some(report), .. }) = connector.step(event) {
            heard.push(report);
        }
    }
    assert_eq!(
        heard,
        vec![
            Connection::Established(true),
            Connection::Reconnecting,
            Connection::Reconnecting,
            Connection::Reconnecting,
            Connection::Established(false),
            Connection::Reconnecting,
            Connection::Established(false),
            Connection::Reconnecting,
        ]
    );
}
