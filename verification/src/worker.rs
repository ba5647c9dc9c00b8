//! What the two halves of a connection do about each thing that happens to
//! them: one moves frames from the socket to the user, the other from the user
//! to the socket.

use tokio::sync::mpsc::UnboundedSender;
use vstd::prelude::*;

use crate::channel::{
    abandoned, carried, item_view, keeps_order, offer_next, passed, put,
    put_items_keep_their_order, Item,
};
use crate::error::ConnectionError;
use crate::frame::{Frame, FrameView};

verus! {

/// What the reading half does next.
#[derive(Clone, Copy, Debug, PartialEq, Eq, Structural)]
pub enum InboundStep {
    /// It reads the next frame.
    Continue,
    /// It ends, because the user takes no more frames.
    ChannelClosed,
    /// It ends, because reading failed, and the writing half has been told.
    Failed,
    /// It ends, because reading failed, and there is no writing half to tell.
    Unreported,
}

/// What the reading half does next, given whether it read a frame and whether
/// the channel that it then turned to accepted the item: the frame goes to the
/// user, an error to the writing half.
pub open spec fn spec_inbound_step(was_read: bool, accepted: bool) -> InboundStep {
    if was_read {
        if accepted {
            InboundStep::Continue
        } else {
            InboundStep::ChannelClosed
        }
    } else {
        if accepted {
            InboundStep::Failed
        } else {
            InboundStep::Unreported
        }
    }
}

/// Decides what the reading half does next.
pub fn inbound_step(was_read: bool, accepted: bool) -> (step: InboundStep)
    ensures
        step == spec_inbound_step(was_read, accepted),
{
    match (was_read, accepted) {
        (true, true) => InboundStep::Continue,
        (true, false) => InboundStep::ChannelClosed,
        (false, true) => InboundStep::Failed,
        (false, false) => InboundStep::Unreported,
    }
}

/// Where the reading half turns with what came off the socket.
#[derive(Debug)]
pub enum Forward {
    /// To the user, with a frame.
    ToUser(Frame),
    /// To the writing half, with the error that ended reading.
    ToWriter(ConnectionError),
}

/// Where the reading half turns: frames go to the user, an error goes to the
/// writing half.
pub open spec fn spec_forward(read: Item) -> Forward {
    match read {
        Ok(frame) => Forward::ToUser(frame),
        Err(error) => Forward::ToWriter(error),
    }
}

/// Decides where the reading half turns with what came off the socket.
pub fn forward(read: Item) -> (to: Forward)
    ensures
        to == spec_forward(read),
{
    match read {
        Ok(frame) => Forward::ToUser(frame),
        Err(error) => Forward::ToWriter(error),
    }
}

/// What becomes of the two channels of the reading half when it passes on what
/// came off the socket, and what it does next: the frame or the error is put on
/// the channel that it is for, and nothing on the other.
pub open spec fn forwarded(
    read: Item,
    in_s: UnboundedSender<Item>,
    out_s: UnboundedSender<Item>,
    step: InboundStep,
    in_s_after: UnboundedSender<Item>,
    out_s_after: UnboundedSender<Item>,
) -> bool {
    match spec_forward(read) {
        Forward::ToUser(frame) => {
            let accepted = step == InboundStep::Continue;
            &&& step == spec_inbound_step(true, accepted)
            &&& put(in_s, Ok(frame@), accepted, in_s_after)
            &&& out_s_after == out_s
        },
        Forward::ToWriter(error) => {
            let accepted = step == InboundStep::Failed;
            &&& step == spec_inbound_step(false, accepted)
            &&& put(out_s, Err(error), accepted, out_s_after)
            &&& in_s_after == in_s
        },
    }
}

/// Passes on what came off the socket: a frame to the user, an error to the
/// writing half.
pub fn inbound(
    read: Item,
    in_s: &mut UnboundedSender<Item>,
    out_s: &mut UnboundedSender<Item>,
) -> (step: InboundStep)
    ensures
        forwarded(read, *old(in_s), *old(out_s), step, *final(in_s), *final(out_s)),
{
    match forward(read) {
        Forward::ToUser(frame) => inbound_step(true, offer_next(in_s, Ok(frame))),
        Forward::ToWriter(error) => inbound_step(false, offer_next(out_s, Err(error))),
    }
}

/// What happens to the writing half.
#[derive(Debug)]
pub enum OutboundEvent {
    /// This came off its channel: an item, or nothing because none will come.
    Received(Option<Item>),
    /// It wrote a frame, or failed to.
    Written(bool),
}

/// What the writing half does next.
#[derive(Debug)]
pub enum OutboundStep {
    /// It writes a frame to the socket.
    Write(Frame),
    /// It waits for the next item.
    Receive,
    /// It ends.
    Stop,
}

/// What the writing half does about an event: it writes the frames that come,
/// one after the other, and ends on an error, on a failure to write, or when
/// nothing more comes.
pub open spec fn spec_outbound(event: OutboundEvent) -> OutboundStep {
    match event {
        OutboundEvent::Received(Some(Ok(frame))) => OutboundStep::Write(frame),
        OutboundEvent::Received(Some(Err(_))) => OutboundStep::Stop,
        OutboundEvent::Received(None) => OutboundStep::Stop,
        OutboundEvent::Written(written) => if written {
            OutboundStep::Receive
        } else {
            OutboundStep::Stop
        },
    }
}

/// Decides what the writing half does about an event.
pub fn outbound(event: OutboundEvent) -> (step: OutboundStep)
    ensures
        step == spec_outbound(event),
{
    match event {
        OutboundEvent::Received(Some(Ok(frame))) => OutboundStep::Write(frame),
        OutboundEvent::Received(Some(Err(_))) => OutboundStep::Stop,
        OutboundEvent::Received(None) => OutboundStep::Stop,
        OutboundEvent::Written(true) => OutboundStep::Receive,
        OutboundEvent::Written(false) => OutboundStep::Stop,
    }
}

/// When reading fails, the error that the reading half leaves on the channel of
/// the writing half ends that half too.
pub proof fn failed_read_stops_the_writer(item: Item, error: ConnectionError)
    requires
        item_view(item) == Err::<FrameView, ConnectionError>(error),
    ensures
        spec_outbound(OutboundEvent::Received(Some(item))) == OutboundStep::Stop,
{
}

/// Some items, with the frames in them as their views.
pub open spec fn item_views(items: Seq<Item>) -> Seq<Result<FrameView, ConnectionError>> {
    items.map_values(|item: Item| item_view(item))
}

/// Whether the reading half passes on the item at `i` of a run, having gone on
/// after the one before. Its ends before the item stand at `i` too.
pub open spec fn reads_on(
    reads: Seq<Item>,
    in_s: Seq<UnboundedSender<Item>>,
    out_s: Seq<UnboundedSender<Item>>,
    steps: Seq<InboundStep>,
    i: int,
) -> bool {
    &&& forwarded(reads[i], in_s[i], out_s[i], steps[i], in_s[i + 1], out_s[i + 1])
    &&& 0 < i ==> steps[i - 1] == InboundStep::Continue
}

/// Over a run of the reading half, what it has put on the channel of the user is
/// every frame that came off the socket, each once and in the order in which they
/// came, save a last one that the channel refused. What it has put on the channel
/// of the writing half is the error that ended reading, if one did and that half
/// was there, and nothing else. On the channels these items stand in that order.
pub proof fn frames_reach_the_user_in_order(
    reads: Seq<Item>,
    in_s: Seq<UnboundedSender<Item>>,
    out_s: Seq<UnboundedSender<Item>>,
    steps: Seq<InboundStep>,
)
    requires
        steps.len() == reads.len(),
        in_s.len() == reads.len() + 1,
        out_s.len() == reads.len() + 1,
        forall|i: int| 0 <= i < reads.len() ==> #[trigger] reads_on(reads, in_s, out_s, steps, i),
    ensures
        ({
            let goes_on = 0 < steps.len() ==> steps.last() == InboundStep::Continue;
            let count = if goes_on {
                reads.len() as int
            } else {
                reads.len() - 1
            };
            &&& forall|i: int| 0 <= i < count ==> #[trigger] reads[i] is Ok
            &&& passed(in_s.last()) == passed(in_s.first()) + item_views(reads.take(count))
            &&& passed(out_s.last()) == if !goes_on && steps.last() == InboundStep::Failed {
                passed(out_s.first()).push(item_view(reads.last()))
            } else {
                passed(out_s.first())
            }
            &&& !goes_on ==> (reads.last() is Ok <==> steps.last() == InboundStep::ChannelClosed)
            &&& keeps_order(in_s.first()) ==> keeps_order(in_s.last())
            &&& keeps_order(out_s.first()) ==> keeps_order(out_s.last())
        }),
    decreases reads.len(),
{
    if 0 < reads.len() {
        let n = reads.len() - 1;
        assert forall|i: int| 0 <= i < n implies #[trigger] reads_on(
            reads.drop_last(),
            in_s.drop_last(),
            out_s.drop_last(),
            steps.drop_last(),
            i,
        ) by {
            assert(reads_on(reads, in_s, out_s, steps, i));
        }
        frames_reach_the_user_in_order(
            reads.drop_last(),
            in_s.drop_last(),
            out_s.drop_last(),
            steps.drop_last(),
        );
        assert(reads_on(reads, in_s, out_s, steps, n));
        match reads[n] {
            Ok(frame) => put_items_keep_their_order(
                in_s[n],
                Ok(frame@),
                steps[n] == InboundStep::Continue,
                in_s[n + 1],
            ),
            Err(error) => put_items_keep_their_order(
                out_s[n],
                Err(error),
                steps[n] == InboundStep::Failed,
                out_s[n + 1],
            ),
        }
        assert(reads.drop_last().take(n) =~= reads.take(n));
        assert(item_views(reads.take(n + 1)) =~= item_views(reads.take(n)).push(
            item_view(reads[n]),
        ));
        assert forall|i: int| 0 <= i < n implies #[trigger] reads[i] is Ok by {
            assert(reads.drop_last()[i] is Ok);
        }
    } else {
        assert(passed(in_s.first()) + item_views(reads.take(0)) =~= passed(in_s.first()));
    }
}

/// Whether the event at `i` of a run is one that the writing half waits for: it
/// waits first for an item, and then for what its last step asks for.
pub open spec fn comes_as_asked(events: Seq<OutboundEvent>, i: int) -> bool {
    if i == 0 {
        events[i] is Received
    } else {
        match spec_outbound(events[i - 1]) {
            OutboundStep::Write(_) => events[i] is Written,
            OutboundStep::Receive => events[i] is Received,
            OutboundStep::Stop => false,
        }
    }
}

/// What came off the channel of the writing half during some events.
pub open spec fn received(events: Seq<OutboundEvent>) -> Seq<Option<Item>>
    decreases events.len(),
{
    if events.len() == 0 {
        Seq::empty()
    } else {
        match events.last() {
            OutboundEvent::Received(item) => received(events.drop_last()).push(item),
            OutboundEvent::Written(_) => received(events.drop_last()),
        }
    }
}

/// The frames that the writing half is to write because of some events.
pub open spec fn told_to_write(events: Seq<OutboundEvent>) -> Seq<Frame>
    decreases events.len(),
{
    if events.len() == 0 {
        Seq::empty()
    } else {
        match spec_outbound(events.last()) {
            OutboundStep::Write(frame) => told_to_write(events.drop_last()).push(frame),
            _ => told_to_write(events.drop_last()),
        }
    }
}

/// Over a run of the writing half, the frames that it is to write are those that
/// came off its channel before it stopped, each once and in the order in which
/// they came. Anything else that came off its channel stopped it. Nothing
/// happens to it once it has stopped.
pub proof fn frames_are_written_in_order(events: Seq<OutboundEvent>)
    requires
        forall|i: int| 0 <= i < events.len() ==> #[trigger] comes_as_asked(events, i),
    ensures
        ({
            let came = received(events);
            let told = told_to_write(events);
            &&& forall|i: int|
                0 <= i < told.len() ==> #[trigger] came[i] == Some(
                    Ok::<Frame, ConnectionError>(told[i]),
                )
            &&& came.len() != told.len() ==> {
                &&& came.len() == told.len() + 1
                &&& !(came.last() matches Some(Ok(_)))
                &&& spec_outbound(events.last()) == OutboundStep::Stop
            }
            &&& forall|i: int|
                0 <= i < events.len() && spec_outbound(#[trigger] events[i]) == OutboundStep::Stop
                    ==> i == events.len() - 1
        }),
    decreases events.len(),
{
    if 0 < events.len() {
        let earlier = events.drop_last();
        assert forall|i: int| 0 <= i < earlier.len() implies #[trigger] comes_as_asked(
            earlier,
            i,
        ) by {
            assert(comes_as_asked(events, i));
        }
        frames_are_written_in_order(earlier);
        assert forall|i: int|
            0 <= i < events.len() && spec_outbound(#[trigger] events[i])
                == OutboundStep::Stop implies i == events.len() - 1 by {
            if i < events.len() - 1 {
                assert(comes_as_asked(events, i + 1));
            }
        }
        assert(comes_as_asked(events, events.len() - 1));
        assert forall|i: int| 0 <= i < told_to_write(events).len() implies #[trigger] received(
            events,
        )[i] == Some(Ok::<Frame, ConnectionError>(told_to_write(events)[i])) by {
            if i < told_to_write(earlier).len() {
                assert(received(earlier)[i] == Some(
                    Ok::<Frame, ConnectionError>(told_to_write(earlier)[i]),
                ));
            }
        }
    }
}

/// The reading half goes on exactly where a frame was read and the user took it.
/// It ends without the user where the user did not, and on an error after telling
/// the writing half, or without that half where it was not there.
pub proof fn reading_goes_on_while_frames_are_taken(
    was_read: bool,
    accepted: bool,
    step: InboundStep,
)
    requires
        call_ensures(inbound_step, (was_read, accepted), step),
    ensures
        step == InboundStep::Continue <==> was_read && accepted,
        step == InboundStep::ChannelClosed <==> was_read && !accepted,
        step == InboundStep::Failed <==> !was_read && accepted,
        step == InboundStep::Unreported <==> !was_read && !accepted,
        step == spec_inbound_step(was_read, accepted),
{
}

/// Every frame is for the user and every error is for the writing half, as they
/// came off the socket.
pub proof fn frames_are_for_the_user(read: Item, to: Forward)
    requires
        call_ensures(forward, (read,), to),
    ensures
        read matches Ok(frame) ==> to == Forward::ToUser(frame),
        read matches Err(error) ==> to == Forward::ToWriter(error),
        to == spec_forward(read),
{
}

/// A frame that was read is put on the channel of the user, once and nothing
/// else, and reading goes on; or the user is gone, nothing is put there, and
/// reading ends. Nothing goes to the writing half.
pub proof fn read_frame_is_for_the_user(
    frame: Frame,
    in_s: &mut UnboundedSender<Item>,
    out_s: &mut UnboundedSender<Item>,
    step: InboundStep,
)
    requires
        call_ensures(inbound, (Ok(frame), in_s, out_s), step),
    ensures
        carried(*final(in_s)) == carried(*old(in_s)),
        carried(*final(out_s)) == carried(*old(out_s)),
        passed(*final(out_s)) == passed(*old(out_s)),
        step == InboundStep::Continue || step == InboundStep::ChannelClosed,
        step == InboundStep::Continue ==> passed(*final(in_s)) == passed(*old(in_s)).push(
            Ok::<FrameView, ConnectionError>(frame@),
        ),
        step == InboundStep::ChannelClosed ==> passed(*final(in_s)) == passed(*old(in_s))
            && abandoned(*old(in_s)),
{
    put_items_keep_their_order(
        *old(in_s),
        Ok(frame@),
        step == InboundStep::Continue,
        *final(in_s),
    );
}

/// An error that ended reading is put on the channel of the writing half, once
/// and nothing else; or that half is gone, and nothing is put there. Nothing goes
/// to the user, and reading does not go on.
pub proof fn read_error_is_for_the_writer(
    error: ConnectionError,
    in_s: &mut UnboundedSender<Item>,
    out_s: &mut UnboundedSender<Item>,
    step: InboundStep,
)
    requires
        call_ensures(inbound, (Err(error), in_s, out_s), step),
    ensures
        carried(*final(in_s)) == carried(*old(in_s)),
        carried(*final(out_s)) == carried(*old(out_s)),
        passed(*final(in_s)) == passed(*old(in_s)),
        step == InboundStep::Failed || step == InboundStep::Unreported,
        step == InboundStep::Failed ==> passed(*final(out_s)) == passed(*old(out_s)).push(
            Err::<FrameView, ConnectionError>(error),
        ),
        step == InboundStep::Unreported ==> passed(*final(out_s)) == passed(*old(out_s))
            && abandoned(*old(out_s)),
{
    put_items_keep_their_order(
        *old(out_s),
        Err(error),
        step == InboundStep::Failed,
        *final(out_s),
    );
}

/// A frame that came off its channel is what the writing half writes next, and
/// the only thing that makes it write.
pub proof fn received_frame_is_written(event: OutboundEvent, step: OutboundStep, frame: Frame)
    requires
        call_ensures(outbound, (event,), step),
    ensures
        step == OutboundStep::Write(frame) <==> event == OutboundEvent::Received(Some(Ok(frame))),
        step == spec_outbound(event),
{
}

/// The writing half waits for another item exactly after it has written a frame.
/// It stops exactly where an error or nothing came off its channel, or writing
/// failed.
pub proof fn writer_waits_after_writing(event: OutboundEvent, step: OutboundStep)
    requires
        call_ensures(outbound, (event,), step),
    ensures
        step == OutboundStep::Receive <==> event == OutboundEvent::Written(true),
        step == OutboundStep::Stop <==> {
            ||| event matches OutboundEvent::Received(Some(Err(_)))
            ||| event matches OutboundEvent::Received(None)
            ||| event == OutboundEvent::Written(false)
        },
{
}

} // verus!
