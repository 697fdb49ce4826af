//! The bounded queues that carry normalized events from the polling side to
//! the frame side: tokio's bounded channel, used only through calls that do
//! not wait for room or for values.
//!
//! The channel's contents are shared between the two sides and change under
//! the other side's calls, so no value held here determines them: the
//! contracts below state what holds whatever the other side did.
use vstd::prelude::*;
use tokio::sync::mpsc::{Receiver, Sender};

verus! {

/// How many events each queue holds before new ones are dropped.
pub const QUEUE_CAPACITY: usize = 64;

#[verifier::external_type_specification]
#[verifier::external_body]
#[verifier::reject_recursive_types(T)]
pub struct ExSender<T>(Sender<T>);

#[verifier::external_type_specification]
#[verifier::external_body]
#[verifier::reject_recursive_types(T)]
pub struct ExReceiver<T>(Receiver<T>);

/// Relies on tokio's `Sender::try_send`: it does not wait for room; it either
/// queues the value and returns `Ok`, or hands it back because the channel is
/// full or closed. The value is dropped in the second case.
#[verifier::external_body]
fn offer<T>(tx: &Sender<T>, value: T) -> (accepted: bool) {
    tx.try_send(value).is_ok()
}

/// Relies on tokio's `Receiver::try_recv`: it does not wait for a value to
/// arrive; it takes the oldest queued value, or reports that none is queued.
/// (It may pause briefly while another thread finishes a send.)
#[verifier::external_body]
fn take<T>(rx: &mut Receiver<T>) -> (r: Option<T>) {
    rx.try_recv().ok()
}

/// Relies on tokio's `Receiver::len`: the number of values queued right now.
#[verifier::external_body]
fn queued<T>(rx: &Receiver<T>) -> (n: usize) {
    rx.len()
}

/// The count of dropped events after one offer: unchanged when the queue
/// accepted the event, one more when it refused it.
pub fn tally_offer(dropped: usize, accepted: bool) -> (r: usize)
    requires
        dropped < usize::MAX,
    ensures
        r == if accepted { dropped } else { (dropped + 1) as usize },
{
    if accepted {
        dropped
    } else {
        dropped + 1
    }
}

/// Offers each event to the queue in order, without waiting for room. An
/// event that finds the queue full (or closed) is dropped; the later ones
/// are still offered. Returns how many were dropped.
pub fn enqueue_all<T>(tx: &Sender<T>, events: Vec<T>) -> (dropped: usize)
    ensures
        dropped <= events@.len(),
        events@.len() == 0 ==> dropped == 0,
{
    let mut dropped: usize = 0;
    let mut rest = events;
    let total = rest.len();
    while rest.len() > 0
        invariant
            dropped + rest.len() <= total,
        decreases rest.len(),
    {
        let event = rest.remove(0);
        let accepted = offer(tx, event);
        dropped = tally_offer(dropped, accepted);
    }
    dropped
}

/// Records what one take from the queue gave. With a subscriber, a taken
/// event is kept, after those taken before it, and draining goes on; an
/// empty answer ends the drain. Without a subscriber, a taken event is
/// discarded and the drain ends.
pub fn absorb_taken<T>(drained: &mut Vec<T>, has_subscriber: bool, got: Option<T>) -> (more: bool)
    ensures
        more == (has_subscriber && got is Some),
        has_subscriber && got is Some ==> final(drained)@ == old(drained)@.push(got->0),
        !(has_subscriber && got is Some) ==> final(drained)@ == old(drained)@,
{
    match got {
        Some(event) => {
            if has_subscriber {
                drained.push(event);
                true
            } else {
                false
            }
        },
        None => false,
    }
}

/// Takes out of the queue what one frame will handle, oldest first, without
/// waiting for more to arrive: at most the events queued when the call
/// begins, stopping at the first empty answer. When the class has no
/// subscriber, at most one event is taken and discarded, and the rest stay
/// queued for a later frame.
pub fn drain_for_frame<T>(rx: &mut Receiver<T>, has_subscriber: bool) -> (drained: Vec<T>)
    ensures
        !has_subscriber ==> drained@.len() == 0,
{
    let mut drained: Vec<T> = Vec::new();
    let limit = if has_subscriber {
        queued(rx)
    } else {
        1
    };
    let mut i: usize = 0;
    while i < limit
        invariant
            i <= limit,
            drained@.len() <= i,
            !has_subscriber ==> drained@.len() == 0,
        decreases limit - i,
    {
        let got = take(rx);
        if !absorb_taken(&mut drained, has_subscriber, got) {
            break;
        }
        i = i + 1;
    }
    drained
}

} // verus!
