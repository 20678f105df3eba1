use tokio::sync::mpsc::{Receiver, Sender};
use vstd::prelude::*;

verus! {

#[verifier::external_type_specification]
#[verifier::external_body]
#[verifier::reject_recursive_types(T)]
pub struct ExMpscSender<T>(Sender<T>);

#[verifier::external_type_specification]
#[verifier::external_body]
#[verifier::reject_recursive_types(T)]
pub struct ExMpscReceiver<T>(Receiver<T>);

/// The most messages the channel behind a sending end can hold at once, the bound
/// that `Sender::max_capacity` reports.
pub uninterp spec fn sender_bound(tx: Sender<String>) -> nat;

/// The most messages the channel behind a receiving end can hold at once, the bound
/// that `Receiver::max_capacity` reports.
pub uninterp spec fn receiver_bound(rx: Receiver<String>) -> nat;

/// Whether a sending end and a receiving end belong to one channel, so that what is
/// sent on the first is received from the second. Handles never change channel.
pub uninterp spec fn same_channel(tx: Sender<String>, rx: Receiver<String>) -> bool;

/// The free slots (what `Sender::capacity` reports) that the channel behind a sending
/// end had when it was created. Sends and receives change the free slots later; this
/// value, fixed at creation, does not change.
pub uninterp spec fn free_slots_at_creation(tx: Sender<String>) -> nat;

/// `tokio::sync::mpsc::channel(buffer)`: a bounded channel holding at most `buffer`
/// messages. It asserts `buffer > 0`, and its semaphore asserts `buffer <= usize::MAX >> 3`;
/// both ends report `buffer` as their maximum capacity, they are the two ends of one
/// channel, and the channel starts with all `buffer` slots free (its semaphore is
/// created with `buffer` permits). Not stated: the free slots and queued messages at
/// any later time, which sends and receives change behind shared references.
#[verifier::external_body]
fn bounded_channel(buffer: usize) -> (ends: (Sender<String>, Receiver<String>))
    requires
        0 < buffer,
        buffer <= usize::MAX >> 3usize,
    ensures
        sender_bound(ends.0) == buffer,
        receiver_bound(ends.1) == buffer,
        same_channel(ends.0, ends.1),
        free_slots_at_creation(ends.0) == buffer,
{
    tokio::sync::mpsc::channel(buffer)
}

/// The two ends of a bounded channel of text messages.
pub struct MessageChannel {
    pub tx: Sender<String>,
    pub rx: Receiver<String>,
}

impl MessageChannel {
    /// A channel that holds up to `buffer` messages that are sent and not yet received:
    /// `tx` and `rx` are its two ends, and it starts with all `buffer` slots free.
    pub fn new(buffer: usize) -> (channel: Self)
        requires
            0 < buffer,
            buffer <= usize::MAX / 8,
        ensures
            sender_bound(channel.tx) == buffer,
            receiver_bound(channel.rx) == buffer,
            same_channel(channel.tx, channel.rx),
            free_slots_at_creation(channel.tx) == buffer,
    {
        proof {
            let most: usize = usize::MAX;
            assert(most >> 3usize == most / 8) by (bit_vector);
        }
        let (tx, rx) = bounded_channel(buffer);
        MessageChannel { tx, rx }
    }
}

} // verus!
