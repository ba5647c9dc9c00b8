//! The channels that frames pass through between a connection and its user.
//!
//! They are the unbounded channels of `tokio`. Several tasks hold the ends of
//! one, so what is in it at a given moment is nobody's to say. The contracts
//! speak instead of everything that it carries from first to last, of how much
//! of that its receiver has taken so far, and of what a sending end that one
//! alone holds has put there so far.

use tokio::sync::mpsc::error::TryRecvError;
use tokio::sync::mpsc::{UnboundedReceiver, UnboundedSender};
use vstd::prelude::*;

use crate::error::ConnectionError;
use crate::frame::{Frame, FrameView};

verus! {

/// The sending end of an unbounded channel of `tokio`. What the channel carries
/// is named by [`carried`].
#[verifier::external_type_specification]
#[verifier::external_body]
#[verifier::reject_recursive_types(T)]
pub struct ExUnboundedSender<T>(tokio::sync::mpsc::UnboundedSender<T>);

/// The receiving end of an unbounded channel of `tokio`. What the channel
/// carries is named by [`arriving`], and how much of it has been taken by
/// [`taken`].
#[verifier::external_type_specification]
#[verifier::external_body]
#[verifier::reject_recursive_types(T)]
pub struct ExUnboundedReceiver<T>(tokio::sync::mpsc::UnboundedReceiver<T>);

/// What passes through a channel: a frame, or the error that ended the
/// connection.
pub type Item = Result<Frame, ConnectionError>;

/// An item, with the frame in it as its view.
pub open spec fn item_view(item: Item) -> Result<FrameView, ConnectionError> {
    match item {
        Ok(frame) => Ok(frame@),
        Err(error) => Err(error),
    }
}

/// Everything that the channel of a sending end accepts, from its creation to
/// its end, in the order in which it accepts it. This does not change while the
/// channel is used: that an item has been accepted shows as a member of it.
pub uninterp spec fn carried(channel: UnboundedSender<Item>) -> Seq<
    Result<FrameView, ConnectionError>,
>;

/// Whether the receiving end of the channel of a sending end is closed or dropped
/// while there is still a sending end. Like the above, this is said of the
/// channel from its creation to its end.
pub uninterp spec fn abandoned(channel: UnboundedSender<Item>) -> bool;

/// Where, in what its channel carries, the items stand that a sending end has put
/// there so far while one alone held it, in the order in which it put them. What
/// goes through an end that several hold does not show here, nor what goes
/// through its copies.
pub uninterp spec fn places(channel: UnboundedSender<Item>) -> Seq<nat>;

/// Everything that the channel of a receiving end accepts, from its creation to
/// its end, in the order in which it accepts it.
pub uninterp spec fn arriving(channel: UnboundedReceiver<Item>) -> Seq<
    Result<FrameView, ConnectionError>,
>;

/// How many items have been taken off a receiving end.
pub uninterp spec fn taken(channel: UnboundedReceiver<Item>) -> nat;

/// The items that a sending end has put on its channel so far while one alone
/// held it, in the order in which it put them.
pub open spec fn passed(channel: UnboundedSender<Item>) -> Seq<Result<FrameView, ConnectionError>> {
    places(channel).map_values(|place: nat| carried(channel)[place as int])
}

/// Whether the items that a sending end has put on its channel stand there in
/// the order in which it put them.
pub open spec fn keeps_order(channel: UnboundedSender<Item>) -> bool {
    &&& forall|i: int|
        0 <= i < places(channel).len() ==> #[trigger] places(channel)[i] < carried(channel).len()
    &&& forall|i: int, j: int|
        0 <= i < j < places(channel).len() ==> #[trigger] places(channel)[i]
            < #[trigger] places(channel)[j]
}

/// What becomes of a sending end on which an item is put: where the channel
/// accepts it, the item gets a place behind all that the end has put there, and
/// nothing else does. The only reason to refuse it is that the receiving end is
/// gone.
pub open spec fn put(
    before: UnboundedSender<Item>,
    item: Result<FrameView, ConnectionError>,
    accepted: bool,
    after: UnboundedSender<Item>,
) -> bool {
    &&& carried(after) == carried(before)
    &&& abandoned(after) == abandoned(before)
    &&& if accepted {
        let place = places(after).last();
        &&& places(after) == places(before).push(place)
        &&& place < carried(before).len()
        &&& carried(before)[place as int] == item
        &&& forall|i: int|
            0 <= i < places(before).len() ==> #[trigger] places(before)[i] < place
    } else {
        &&& places(after) == places(before)
        &&& abandoned(before)
    }
}

/// What a look at a receiving end gives.
#[derive(Debug)]
pub enum Polled {
    /// An item, which is now taken.
    Ready(Item),
    /// Nothing for now.
    Empty,
    /// Nothing, now or later.
    Disconnected,
}

/// Calls `tokio`'s `unbounded_channel`.
///
/// Trusted: the two ends belong to one channel, on which nothing has been put and
/// of which nothing has been taken.
#[verifier::external_body]
pub(crate) fn open_channel() -> (ends: (UnboundedSender<Item>, UnboundedReceiver<Item>))
    ensures
        carried(ends.0) == arriving(ends.1),
        places(ends.0).len() == 0,
        taken(ends.1) == 0,
{
    tokio::sync::mpsc::unbounded_channel()
}

/// Calls `tokio`'s `UnboundedSender::send`, on an end that nobody else holds.
///
/// Trusted: the channel accepts this item and no other, behind all that the end
/// has put there before; it refuses it only where the receiving end is gone.
/// Whether that is the case by now is not said: it is up to other tasks.
#[verifier::external_body]
pub(crate) fn offer_next(channel: &mut UnboundedSender<Item>, item: Item) -> (accepted: bool)
    ensures
        put(*old(channel), item_view(item), accepted, *final(channel)),
{
    channel.send(item).is_ok()
}

/// Calls `tokio`'s `UnboundedReceiver::try_recv`.
///
/// Trusted: items are taken one at a time, in the order in which the channel
/// accepted them, and none is passed over. The channel is reported as
/// disconnected only when everything that it carries has been taken. Whether an
/// item has arrived by now is not said: that is up to other tasks.
#[verifier::external_body]
pub(crate) fn poll(channel: &mut UnboundedReceiver<Item>) -> (polled: Polled)
    ensures
        arriving(*final(channel)) == arriving(*old(channel)),
        (match polled {
            Polled::Ready(item) => {
                &&& taken(*old(channel)) < arriving(*old(channel)).len()
                &&& item_view(item) == arriving(*old(channel))[taken(*old(channel)) as int]
                &&& taken(*final(channel)) == taken(*old(channel)) + 1
            },
            Polled::Empty => taken(*final(channel)) == taken(*old(channel)),
            Polled::Disconnected => {
                &&& taken(*final(channel)) == taken(*old(channel))
                &&& taken(*old(channel)) == arriving(*old(channel)).len()
            },
        }),
{
    match channel.try_recv() {
        Ok(item) => Polled::Ready(item),
        Err(TryRecvError::Empty) => Polled::Empty,
        Err(TryRecvError::Disconnected) => Polled::Disconnected,
    }
}

/// Putting an item on a channel adds it to what the end has passed, and the items
/// that it has passed still stand on the channel in the order in which it put
/// them.
pub proof fn put_items_keep_their_order(
    before: UnboundedSender<Item>,
    item: Result<FrameView, ConnectionError>,
    accepted: bool,
    after: UnboundedSender<Item>,
)
    requires
        put(before, item, accepted, after),
    ensures
        passed(after) == if accepted {
            passed(before).push(item)
        } else {
            passed(before)
        },
        keeps_order(before) ==> keeps_order(after),
{
    if accepted {
        assert(passed(after) =~= passed(before).push(item));
    } else {
        assert(passed(after) =~= passed(before));
    }
}

/// The view of an item holds the frame or the error that the item is.
pub proof fn view_holds_the_item(item: Item)
    ensures
        item matches Ok(frame) ==> (item_view(item) matches Ok(view) && view.fin == frame.fin
            && view.opcode == frame.opcode && view.payload == frame.payload@),
        item matches Err(error) ==> item_view(item) == Err::<FrameView, ConnectionError>(error),
{
}

/// An item that is accepted is one that the channel carries. One that is refused
/// is so because the receiving end is gone. The channel is the same before and
/// after.
pub proof fn accepted_item_is_carried(
    before: UnboundedSender<Item>,
    item: Result<FrameView, ConnectionError>,
    accepted: bool,
    after: UnboundedSender<Item>,
)
    requires
        put(before, item, accepted, after),
    ensures
        accepted ==> carried(after).contains(item),
        !accepted ==> abandoned(before),
        carried(after) == carried(before),
        abandoned(after) == abandoned(before),
{
}

} // verus!
