use tokio::sync::watch::{Receiver, Sender};
use vstd::prelude::*;
use crate::point::Point;

verus! {

#[verifier::external_type_specification]
#[verifier::external_body]
#[verifier::reject_recursive_types(T)]
pub struct ExWatchSender<T>(Sender<T>);

#[verifier::external_type_specification]
#[verifier::external_body]
#[verifier::reject_recursive_types(T)]
pub struct ExWatchReceiver<T>(Receiver<T>);

/// `Clone` for `tokio::sync::watch::Sender`: another handle on the same channel.
/// Nothing is stated of it.
pub assume_specification<T>[ <Sender<T> as Clone>::clone ](tx: &Sender<T>) -> Sender<T>;

/// The value that the channel behind a sending end was created with. It never changes:
/// a later send changes the channel's latest value, not the value it started from.
pub uninterp spec fn sender_first_value(tx: Sender<Point>) -> Point;

/// The value that the channel behind a receiving end was created with. It never changes.
pub uninterp spec fn receiver_first_value(rx: Receiver<Point>) -> Point;

/// Whether a sending end and a receiving end belong to one watch channel, so that what
/// is sent on the first is what the second sees. Handles never change channel.
pub uninterp spec fn same_watch(tx: Sender<Point>, rx: Receiver<Point>) -> bool;

/// Whether the channel behind a sending end holds `value` as its latest value at some
/// point of its whole life. This speaks of the channel's entire history, before and
/// after any given moment alike, so it is one fixed fact per channel and value.
pub uninterp spec fn ever_holds(tx: Sender<Point>, value: Point) -> bool;

/// Whether the channel behind a sending end is left without any receiver at some point
/// of its whole life. Like `ever_holds`, a fixed fact about the channel's entire history.
pub uninterp spec fn ever_unheard(tx: Sender<Point>) -> bool;

/// `tokio::sync::watch::channel(init)`: a channel that holds one latest value, created
/// holding `init`; both ends share it. Stated: both ends belong to one channel, created
/// with `init` (so the channel holds `init` at some point of its life). Not stated: the latest value at any later time, which sends change
/// behind shared references.
#[verifier::external_body]
fn watch_channel(init: Point) -> (ends: (Sender<Point>, Receiver<Point>))
    ensures
        sender_first_value(ends.0) == init,
        receiver_first_value(ends.1) == init,
        same_watch(ends.0, ends.1),
        ever_holds(ends.0, init),
{
    tokio::sync::watch::channel(init)
}

/// `tokio::sync::watch::Sender::send`: when no receiver is left it fails and changes
/// nothing; otherwise it makes `value` the latest value and wakes the receivers. The
/// result says whether it was sent. Stated: a send that succeeded made `value` the
/// channel's latest value (so the channel holds it at some point of its life); one that
/// failed found the channel without receivers. Not stated: which way it goes, which
/// depends on receivers held elsewhere, nor the latest value at any later time, which
/// other handles change.
#[verifier::external_body]
fn watch_send(tx: &Sender<Point>, value: Point) -> (sent: bool)
    ensures
        sent ==> ever_holds(*tx, value),
        !sent ==> ever_unheard(*tx),
{
    tx.send(value).is_ok()
}

/// The sending side of a channel that broadcasts the latest cursor position.
#[derive(Clone)]
pub struct Observable {
    tx: Sender<Point>,
}

impl Observable {
    /// The value the broadcast channel started with.
    pub closed spec fn first_value(&self) -> Point {
        sender_first_value(self.tx)
    }

    /// `rx` receives what this broadcaster publishes.
    pub closed spec fn feeds(&self, rx: Receiver<Point>) -> bool {
        same_watch(self.tx, rx)
    }

    /// The broadcast channel holds `value` as its latest value at some point of its life.
    pub closed spec fn publishes(&self, value: Point) -> bool {
        ever_holds(self.tx, value)
    }

    /// The broadcast channel is left without receivers at some point of its life.
    pub closed spec fn unheard(&self) -> bool {
        ever_unheard(self.tx)
    }

    /// A broadcaster whose receivers start out seeing `initial_value`, with the first
    /// receiver.
    pub fn new(initial_value: Point) -> (res: (Self, Receiver<Point>))
        ensures
            res.0.first_value() == initial_value,
            receiver_first_value(res.1) == initial_value,
            res.0.feeds(res.1),
            res.0.publishes(initial_value),
    {
        let (tx, rx) = watch_channel(initial_value);
        (Observable { tx }, rx)
    }

    /// Publishes `new_value` to every receiver; with no receiver left it is dropped.
    /// Either way it is `new_value` that is handed to the channel: the channel holds it
    /// at some point, unless it was found without receivers.
    pub fn update_value(&self, new_value: Point)
        ensures
            self.publishes(new_value) || self.unheard(),
    {
        let _ = watch_send(&self.tx, new_value);
    }
}

} // verus!
