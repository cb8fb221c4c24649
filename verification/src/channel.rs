//! The bounded work channel: a fixed-capacity FIFO conduit that carries
//! event payloads from the host's callback threads to the background worker.
//!
//! The channel itself is an outside concurrent queue; both endpoints may be
//! touched from several threads at once, so what a call returns depends on
//! what the other side has done in the meantime.  Each trusted wrapper
//! therefore states only what holds of every outcome, and the verified
//! worker takes the outcome as an input to its next decision.

use vstd::prelude::*;

verus! {

#[verifier::external_type_specification]
#[verifier::external_body]
#[verifier::reject_recursive_types(T)]
pub struct ExSender<T>(crossbeam_channel::Sender<T>);

#[verifier::external_type_specification]
#[verifier::external_body]
#[verifier::reject_recursive_types(T)]
pub struct ExReceiver<T>(crossbeam_channel::Receiver<T>);

/// What one bounded wait on the consumer endpoint yielded.
#[derive(Clone, Copy, Debug)]
pub enum PollOutcome {
    /// The oldest queued payload; the channel hands items out in the order
    /// they were enqueued.
    Item(i32),
    /// The wait interval elapsed with the channel empty.
    TimedOut,
    /// The channel is empty and every producer endpoint has been dropped;
    /// no further item can ever arrive.
    Disconnected,
}

/// Relies on crossbeam_channel::bounded: a FIFO channel holding at most
/// `capacity` items, returned as a producer/consumer pair.  The bound on
/// `capacity` keeps clear of the sizes on which `bounded` panics while
/// laying out its ring.
#[verifier::external_body]
pub(crate) fn open_channel(capacity: usize) -> (r: (
    crossbeam_channel::Sender<i32>,
    crossbeam_channel::Receiver<i32>,
))
    requires
        capacity <= usize::MAX / 4,
{
    crossbeam_channel::bounded(capacity)
}

/// Relies on crossbeam_channel::Sender::send: blocks while the channel is
/// full, enqueues the message behind everything already queued, and returns
/// `Err` carrying the message back only when every consumer endpoint has
/// been dropped.
#[verifier::external_body]
pub(crate) fn send_work(sender: &crossbeam_channel::Sender<i32>, item: i32) -> (r: Result<
    (),
    i32,
>)
    ensures
        r matches Err(lost) ==> lost == item,
{
    match sender.send(item) {
        Ok(()) => Ok(()),
        Err(e) => Err(e.0),
    }
}

/// Relies on crossbeam_channel::Receiver::recv_timeout: waits at most about
/// `wait_millis` for an item and reports the oldest queued payload, an empty
/// timeout, or the disconnection of every producer.  Which of the three
/// comes back depends on the other threads, so nothing is promised of it.
#[verifier::external_body]
pub(crate) fn poll_work(
    receiver: &crossbeam_channel::Receiver<i32>,
    wait_millis: u64,
) -> (out: PollOutcome) {
    match receiver.recv_timeout(core::time::Duration::from_millis(wait_millis)) {
        Ok(work) => PollOutcome::Item(work),
        Err(crossbeam_channel::RecvTimeoutError::Timeout) => PollOutcome::TimedOut,
        Err(crossbeam_channel::RecvTimeoutError::Disconnected) => PollOutcome::Disconnected,
    }
}

} // verus!
