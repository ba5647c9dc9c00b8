//! How a client connects, and connects again whenever the connection is lost.
//!
//! The decisions are made here, from one event to the next. Dialing, running a
//! connection and pausing are done by whoever asks for them.

use vstd::prelude::*;

use crate::interval::TimedInterval;

verus! {

/// What a client hears of its connection.
#[derive(Clone, Copy, Debug, PartialEq, Eq, Structural)]
pub enum Connection {
    /// It is up. This is the primary one, the first of all, if it says `true`.
    Established(bool),
    /// It was lost, and another one is being made.
    Reconnecting,
    /// It was lost, and no other one will be made.
    Disconnected,
}

/// What a client is waiting for.
#[derive(Clone, Copy, Debug, PartialEq, Eq, Structural)]
pub enum Phase {
    /// The outcome of the first dialing.
    Connecting,
    /// The end of a running connection.
    Running,
    /// The outcome of another dialing.
    Redialing,
    /// The end of a pause after a dialing that failed.
    Pausing,
    /// Nothing.
    Over,
}

/// What happens to a client.
#[derive(Clone, Copy, Debug, PartialEq, Eq, Structural)]
pub enum Event {
    /// A dialing succeeded or failed.
    Dialed(bool),
    /// A running connection ended.
    Ended,
    /// A pause ended, at this moment.
    Paused(u128),
}

/// What is to be done next.
#[derive(Clone, Copy, Debug, PartialEq, Eq, Structural)]
pub enum Task {
    /// Dial.
    Dial,
    /// Run the connection that dialing gave.
    Run,
    /// Pause.
    Pause,
    /// Give up, with the error of the last dialing.
    GiveUp,
}

/// What an event leads to.
#[derive(Clone, Copy, Debug, PartialEq, Eq, Structural)]
pub struct Action {
    /// What the client hears, if anything.
    pub report: Option<Connection>,
    /// What is to be done next.
    pub task: Task,
}

/// Where a client stands.
#[derive(Debug)]
pub struct Connector {
    /// What it is waiting for.
    pub phase: Phase,
    /// How long it keeps dialing.
    pub interval: TimedInterval,
}

impl Connector {
    /// Where a client stands after an event, and what the event leads to. An
    /// event that the client is not waiting for leads to nothing.
    pub open spec fn spec_step(self, event: Event) -> Option<(Connector, Action)> {
        match (self.phase, event) {
            (Phase::Connecting, Event::Dialed(succeeded)) => if succeeded {
                Some(
                    (
                        Connector { phase: Phase::Running, ..self },
                        Action { report: Some(Connection::Established(true)), task: Task::Run },
                    ),
                )
            } else {
                Some(
                    (
                        Connector { phase: Phase::Over, ..self },
                        Action { report: None, task: Task::GiveUp },
                    ),
                )
            },
            (Phase::Running, Event::Ended) => Some(
                (
                    Connector { phase: Phase::Redialing, ..self },
                    Action { report: Some(Connection::Reconnecting), task: Task::Dial },
                ),
            ),
            (Phase::Redialing, Event::Dialed(succeeded)) => if succeeded {
                Some(
                    (
                        Connector {
                            phase: Phase::Running,
                            interval: TimedInterval { timeout: None, ..self.interval },
                        },
                        Action { report: Some(Connection::Established(false)), task: Task::Run },
                    ),
                )
            } else {
                Some(
                    (
                        Connector { phase: Phase::Pausing, ..self },
                        Action { report: None, task: Task::Pause },
                    ),
                )
            },
            (Phase::Pausing, Event::Paused(now)) => if self.interval.spec_expired(now) {
                Some(
                    (
                        Connector { phase: Phase::Over, ..self },
                        Action { report: Some(Connection::Disconnected), task: Task::GiveUp },
                    ),
                )
            } else {
                Some(
                    (
                        Connector { phase: Phase::Redialing, ..self },
                        Action { report: Some(Connection::Reconnecting), task: Task::Dial },
                    ),
                )
            },
            _ => None,
        }
    }

    /// Where a client stands before its first dialing.
    pub open spec fn spec_new(reconnect_in: u128, max_tries: u32) -> Connector {
        Connector {
            phase: Phase::Connecting,
            interval: TimedInterval { period: reconnect_in, times: max_tries, timeout: None },
        }
    }

    /// Starts a client off: the first thing to do is to dial. It will pause for
    /// `reconnect_in` nanoseconds between dialings.
    pub fn new(reconnect_in: u128, max_tries: u32) -> (connector: Self)
        ensures
            connector == Connector::spec_new(reconnect_in, max_tries),
    {
        Connector {
            phase: Phase::Connecting,
            interval: TimedInterval::from(reconnect_in, max_tries),
        }
    }

    /// Takes in an event, and says what it leads to.
    pub fn step(&mut self, event: Event) -> (action: Option<Action>)
        ensures
            (match old(self).spec_step(event) {
                Some((next, led_to)) => *final(self) == next && action == Some(led_to),
                None => *final(self) == *old(self) && action is None,
            }),
    {
        match (self.phase, event) {
            (Phase::Connecting, Event::Dialed(true)) => {
                self.phase = Phase::Running;
                Some(Action { report: Some(Connection::Established(true)), task: Task::Run })
            },
            (Phase::Connecting, Event::Dialed(false)) => {
                self.phase = Phase::Over;
                Some(Action { report: None, task: Task::GiveUp })
            },
            (Phase::Running, Event::Ended) => {
                self.phase = Phase::Redialing;
                Some(Action { report: Some(Connection::Reconnecting), task: Task::Dial })
            },
            (Phase::Redialing, Event::Dialed(true)) => {
                self.interval.reset();
                self.phase = Phase::Running;
                Some(Action { report: Some(Connection::Established(false)), task: Task::Run })
            },
            (Phase::Redialing, Event::Dialed(false)) => {
                self.phase = Phase::Pausing;
                Some(Action { report: None, task: Task::Pause })
            },
            (Phase::Pausing, Event::Paused(now)) => {
                if self.interval.check_expired(now) {
                    self.phase = Phase::Over;
                    Some(Action { report: Some(Connection::Disconnected), task: Task::GiveUp })
                } else {
                    self.phase = Phase::Redialing;
                    Some(Action { report: Some(Connection::Reconnecting), task: Task::Dial })
                }
            },
            _ => None,
        }
    }

    /// Where a client stands after some events.
    pub open spec fn after(self, events: Seq<Event>) -> Connector
        decreases events.len(),
    {
        if events.len() == 0 {
            self
        } else {
            let before = self.after(events.drop_last());
            match before.spec_step(events.last()) {
                Some((next, _)) => next,
                None => before,
            }
        }
    }

    /// What a client has heard after some events.
    pub open spec fn heard(self, events: Seq<Event>) -> Seq<Connection>
        decreases events.len(),
    {
        if events.len() == 0 {
            Seq::empty()
        } else {
            let earlier = self.heard(events.drop_last());
            match self.after(events.drop_last()).spec_step(events.last()) {
                Some((_, Action { report: Some(report), .. })) => earlier.push(report),
                _ => earlier,
            }
        }
    }

    /// How the dialings of a client went, as far as some events tell.
    pub open spec fn dialings(self, events: Seq<Event>) -> Seq<bool>
        decreases events.len(),
    {
        if events.len() == 0 {
            Seq::empty()
        } else {
            let earlier = self.dialings(events.drop_last());
            match (self.after(events.drop_last()).spec_step(events.last()), events.last()) {
                (Some(_), Event::Dialed(succeeded)) => earlier.push(succeeded),
                _ => earlier,
            }
        }
    }
}

/// What a client hears because of its dialings, given how each of them went: of
/// the first only that it succeeded, and of every other one first that it is made
/// and then, where it succeeded, that the connection is up again.
pub open spec fn spec_reports(dialings: Seq<bool>) -> Seq<Connection>
    decreases dialings.len(),
{
    if dialings.len() == 0 {
        Seq::empty()
    } else if dialings.len() == 1 {
        if dialings[0] {
            seq![Connection::Established(true)]
        } else {
            Seq::empty()
        }
    } else {
        spec_reports(dialings.drop_last()) + if dialings.last() {
            seq![Connection::Reconnecting, Connection::Established(false)]
        } else {
            seq![Connection::Reconnecting]
        }
    }
}

/// A client that has given up does nothing more, whatever happens.
pub proof fn giving_up_is_final(connector: Connector, events: Seq<Event>)
    requires
        connector.phase == Phase::Over,
    ensures
        connector.after(events) == connector,
        connector.heard(events) == Seq::<Connection>::empty(),
    decreases events.len(),
{
    if 0 < events.len() {
        giving_up_is_final(connector, events.drop_last());
    }
}

/// Whether the report at `i` comes in turn after the first one: it says that a
/// connection is being made again, or that the one which was is up.
pub open spec fn comes_in_turn(heard: Seq<Connection>, i: int) -> bool {
    ||| heard[i] == Connection::Reconnecting
    ||| heard[i] == Connection::Established(false) && heard[i - 1] == Connection::Reconnecting
}

/// Whatever happens, a client hears first that its primary connection is up, and
/// never again. After that it hears in turn that the connection is lost, as
/// often as it dials, and that it is up again.
pub proof fn reports_alternate(reconnect_in: u128, max_tries: u32, events: Seq<Event>)
    ensures
        ({
            let heard = Connector::spec_new(reconnect_in, max_tries).heard(events);
            &&& 0 < heard.len() ==> heard[0] == Connection::Established(true)
            &&& forall|i: int| 1 <= i < heard.len() ==> #[trigger] comes_in_turn(heard, i)
        }),
{
    lemma_history(reconnect_in, max_tries, events);
}

/// Whatever happens, what a client hears is exactly what its dialings give it to
/// hear, and that one more is made while it waits for how that goes. It makes no
/// other dialing where the first failed.
pub proof fn reports_follow_the_dialings(reconnect_in: u128, max_tries: u32, events: Seq<Event>)
    ensures
        ({
            let start = Connector::spec_new(reconnect_in, max_tries);
            let now = start.after(events);
            let dialings = start.dialings(events);
            &&& start.heard(events) == spec_reports(dialings) + if now.phase == Phase::Redialing {
                seq![Connection::Reconnecting]
            } else {
                Seq::empty()
            }
            &&& now.phase == Phase::Connecting <==> dialings.len() == 0
            &&& now.phase == Phase::Over <==> dialings.len() == 1 && !dialings[0]
            &&& 1 < dialings.len() ==> dialings[0]
            &&& now.phase == Phase::Running ==> dialings.last()
            &&& now.phase == Phase::Pausing ==> !dialings.last()
        }),
    decreases events.len(),
{
    let start = Connector::spec_new(reconnect_in, max_tries);
    if 0 < events.len() {
        let earlier = events.drop_last();
        reports_follow_the_dialings(reconnect_in, max_tries, earlier);
        lemma_history(reconnect_in, max_tries, earlier);
        let before = start.dialings(earlier);
        if let (Some(_), Event::Dialed(succeeded)) = (
            start.after(earlier).spec_step(events.last()),
            events.last(),
        ) {
            assert(before.push(succeeded).drop_last() =~= before);
        }
        assert(start.heard(events) =~= spec_reports(start.dialings(events)) + if start.after(
            events,
        ).phase == Phase::Redialing {
            seq![Connection::Reconnecting]
        } else {
            Seq::empty()
        });
    } else {
        assert(start.heard(events) =~= Seq::empty());
    }
}

/// Whatever `max_tries` is, a client never gives up once it was connected: it is
/// never told that it is disconnected, and it gives up only where its first
/// dialing failed. No event sets a limit on its tries, so the one that
/// `max_tries` stands for never begins.
pub proof fn lost_connections_are_always_redialed(
    reconnect_in: u128,
    max_tries: u32,
    events: Seq<Event>,
)
    ensures
        ({
            let start = Connector::spec_new(reconnect_in, max_tries);
            &&& !start.heard(events).contains(Connection::Disconnected)
            &&& start.after(events).phase == Phase::Over ==> start.heard(events).len() == 0
            &&& start.after(events).interval == start.interval
        }),
{
    lemma_history(reconnect_in, max_tries, events);
    let heard = Connector::spec_new(reconnect_in, max_tries).heard(events);
    assert forall|i: int| 0 <= i < heard.len() implies heard[i] != Connection::Disconnected by {
        if 0 < i {
            assert(comes_in_turn(heard, i));
        }
    }
}

proof fn lemma_history(reconnect_in: u128, max_tries: u32, events: Seq<Event>)
    ensures
        ({
            let start = Connector::spec_new(reconnect_in, max_tries);
            let now = start.after(events);
            let heard = start.heard(events);
            &&& now.interval == start.interval
            &&& now.phase == Phase::Connecting || now.phase == Phase::Over ==> heard.len() == 0
            &&& now.phase == Phase::Running || now.phase == Phase::Redialing || now.phase
                == Phase::Pausing ==> 0 < heard.len()
            &&& now.phase == Phase::Redialing || now.phase == Phase::Pausing ==> heard.last()
                == Connection::Reconnecting
            &&& 0 < heard.len() ==> heard[0] == Connection::Established(true)
            &&& forall|i: int| 1 <= i < heard.len() ==> #[trigger] comes_in_turn(heard, i)
        }),
    decreases events.len(),
{
    if 0 < events.len() {
        lemma_history(reconnect_in, max_tries, events.drop_last());
        let start = Connector::spec_new(reconnect_in, max_tries);
        let earlier = start.heard(events.drop_last());
        let heard = start.heard(events);
        assert forall|i: int| 1 <= i < heard.len() implies #[trigger] comes_in_turn(heard, i) by {
            if i < earlier.len() {
                assert(comes_in_turn(earlier, i));
            }
        }
    }
}

/// A client starts out waiting for its first dialing, with the pause and the
/// number of tries that it was given, and without a limit on them.
pub proof fn client_starts_by_dialing(reconnect_in: u128, max_tries: u32, connector: Connector)
    requires
        call_ensures(Connector::new, (reconnect_in, max_tries), connector),
    ensures
        connector == Connector::spec_new(reconnect_in, max_tries),
        connector.phase == Phase::Connecting,
        connector.interval.period == reconnect_in,
        connector.interval.times == max_tries,
        connector.interval.timeout is None,
{
}

/// What a client is to do next is what it then waits for: it waits for the
/// outcome of a dialing exactly where it is to dial, for the end of a connection
/// exactly where it is to run one, for the end of a pause exactly where it is to
/// pause, and for nothing exactly where it is to give up.
pub proof fn task_fits_what_is_waited_for(
    connector: &mut Connector,
    event: Event,
    action: Option<Action>,
)
    requires
        call_ensures(Connector::step, (connector, event), action),
    ensures
        action matches Some(led_to) ==> {
            &&& led_to.task == Task::Dial <==> final(connector).phase == Phase::Redialing
            &&& led_to.task == Task::Run <==> final(connector).phase == Phase::Running
            &&& led_to.task == Task::Pause <==> final(connector).phase == Phase::Pausing
            &&& led_to.task == Task::GiveUp <==> final(connector).phase == Phase::Over
        },
{
}

/// A client takes in exactly the events that it waits for. Any other leaves it as
/// it is and leads to nothing.
pub proof fn only_awaited_events_count(
    connector: &mut Connector,
    event: Event,
    action: Option<Action>,
)
    requires
        call_ensures(Connector::step, (connector, event), action),
    ensures
        action is Some <==> {
            ||| old(connector).phase == Phase::Connecting && event is Dialed
            ||| old(connector).phase == Phase::Running && event is Ended
            ||| old(connector).phase == Phase::Redialing && event is Dialed
            ||| old(connector).phase == Phase::Pausing && event is Paused
        },
        action is None ==> *final(connector) == *old(connector),
{
}

/// Whenever a running connection ends, the client hears that another one is
/// being made, and dials.
pub proof fn lost_connection_is_dialed_again(connector: &mut Connector, action: Option<Action>)
    requires
        call_ensures(Connector::step, (connector, Event::Ended), action),
        old(connector).phase == Phase::Running,
    ensures
        action == Some(Action { report: Some(Connection::Reconnecting), task: Task::Dial }),
        final(connector).phase == Phase::Redialing,
{
}

/// A dialing that succeeds gives a connection to run, and the client hears that
/// it is up: as the primary one where it was the first dialing, and only then.
pub proof fn successful_dialing_is_run(connector: &mut Connector, action: Option<Action>)
    requires
        call_ensures(Connector::step, (connector, Event::Dialed(true)), action),
        old(connector).phase == Phase::Connecting || old(connector).phase == Phase::Redialing,
    ensures
        action == Some(
            Action {
                report: Some(
                    Connection::Established(old(connector).phase == Phase::Connecting),
                ),
                task: Task::Run,
            },
        ),
        final(connector).phase == Phase::Running,
{
}

/// A dialing that fails is not reported. The first one makes the client give up,
/// any other one makes it pause.
pub proof fn failed_dialing_is_silent(connector: &mut Connector, action: Option<Action>)
    requires
        call_ensures(Connector::step, (connector, Event::Dialed(false)), action),
        old(connector).phase == Phase::Connecting || old(connector).phase == Phase::Redialing,
    ensures
        old(connector).phase == Phase::Connecting ==> action == Some(
            Action { report: None, task: Task::GiveUp },
        ) && final(connector).phase == Phase::Over,
        old(connector).phase == Phase::Redialing ==> action == Some(
            Action { report: None, task: Task::Pause },
        ) && final(connector).phase == Phase::Pausing,
{
}

/// After a pause the client gives up exactly where a limit on its tries was set
/// and is reached. Otherwise it dials again. Either way it hears so.
pub proof fn pause_ends_in_dialing_unless_limited(
    connector: &mut Connector,
    now: u128,
    action: Option<Action>,
)
    requires
        call_ensures(Connector::step, (connector, Event::Paused(now)), action),
        old(connector).phase == Phase::Pausing,
    ensures
        (old(connector).interval.timeout matches Some(timeout) && timeout <= now) ==> action
            == Some(
            Action { report: Some(Connection::Disconnected), task: Task::GiveUp },
        ) && final(connector).phase == Phase::Over,
        !(old(connector).interval.timeout matches Some(timeout) && timeout <= now) ==> action
            == Some(
            Action { report: Some(Connection::Reconnecting), task: Task::Dial },
        ) && final(connector).phase == Phase::Redialing,
{
}

/// No event changes the pause or the number of tries, and none sets a limit. The
/// limit is taken away where a lost connection is made again, and only there.
pub proof fn limit_goes_with_a_new_connection(
    connector: &mut Connector,
    event: Event,
    action: Option<Action>,
)
    requires
        call_ensures(Connector::step, (connector, event), action),
    ensures
        final(connector).interval.period == old(connector).interval.period,
        final(connector).interval.times == old(connector).interval.times,
        final(connector).interval.timeout == if old(connector).phase == Phase::Redialing && event
            == Event::Dialed(true) {
            None
        } else {
            old(connector).interval.timeout
        },
{
}

/// However many tries a client was given and whatever has happened to it, the
/// only event that makes it give up is that its first dialing failed.
pub proof fn only_a_failed_first_dialing_is_given_up(
    reconnect_in: u128,
    max_tries: u32,
    events: Seq<Event>,
    connector: &mut Connector,
    event: Event,
    action: Option<Action>,
)
    requires
        *old(connector) == Connector::spec_new(reconnect_in, max_tries).after(events),
        call_ensures(Connector::step, (connector, event), action),
    ensures
        (action matches Some(led_to) && led_to.task == Task::GiveUp) <==> old(connector).phase
            == Phase::Connecting && event == Event::Dialed(false),
        old(connector).phase == Phase::Connecting ==> Connector::spec_new(
            reconnect_in,
            max_tries,
        ).dialings(events).len() == 0,
{
    lemma_history(reconnect_in, max_tries, events);
    reports_follow_the_dialings(reconnect_in, max_tries, events);
}

/// Where a client stands after one more event is where taking in that event
/// leaves it.
pub proof fn events_are_taken_in_one_by_one(
    start: Connector,
    events: Seq<Event>,
    connector: &mut Connector,
    event: Event,
    action: Option<Action>,
)
    requires
        *old(connector) == start.after(events),
        call_ensures(Connector::step, (connector, event), action),
    ensures
        start.after(events.push(event)) == *final(connector),
        start.heard(events.push(event)) == match action {
            Some(Action { report: Some(report), .. }) => start.heard(events).push(report),
            _ => start.heard(events),
        },
{
    assert(events.push(event).drop_last() =~= events);
}

} // verus!
