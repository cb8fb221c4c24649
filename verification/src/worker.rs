//! The worker loop: a single background consumer that drains the bounded
//! work channel, together with the mathematical model of one run.
//!
//! Each turn of the loop first looks at the shutdown flag; if it is set the
//! worker stops without polling again.  Otherwise it waits on the channel
//! with a bounded timeout and reacts to the outcome: an item is processed
//! and the worker keeps running, a timeout just starts the next turn, and a
//! disconnection (every producer dropped) stops the worker even though the
//! flag was never set.  The bounded wait is the only blocking point, so the
//! worker observes a newly set flag within about one wait interval plus the
//! current item.
//!
//! A run is modelled as the sequence of turns the worker took; the loop's
//! contract ties the items it processed to that trace, and the lemmas below
//! state the laws of the model: items come out exactly in delivery order,
//! and a turn that saw the flag or the disconnection is always the last.

use vstd::prelude::*;
use crate::channel::PollOutcome;
use crate::channel::poll_work;
use crate::flag::ShutdownFlag;

verus! {

/// What the worker observed during one turn of its loop.
#[derive(Clone, Copy, Debug)]
pub enum Turn {
    /// The shutdown flag was set, so the channel was not polled.
    ShutdownSeen,
    /// The flag was clear and one bounded wait on the channel yielded this.
    Polled(PollOutcome),
}

/// The worker's two live states; a run ends when it leaves `Running`.
#[derive(Clone, Copy, Debug, PartialEq, Eq, Structural)]
pub enum WorkerState {
    Running,
    Stopping,
}

/// Whether the loop takes another turn after this one: it keeps running
/// exactly after processing an item or waking from an empty timeout.
pub open spec fn turn_continues(t: Turn) -> bool {
    match t {
        Turn::ShutdownSeen => false,
        Turn::Polled(out) => !(out is Disconnected),
    }
}

/// The payloads the worker processes during this turn: one for a delivered
/// item, none otherwise.
pub open spec fn turn_items(t: Turn) -> Seq<i32> {
    match t {
        Turn::Polled(PollOutcome::Item(work)) => seq![work],
        _ => Seq::<i32>::empty(),
    }
}

/// All payloads processed over a trace of turns, oldest first.
pub open spec fn processed_items(trace: Seq<Turn>) -> Seq<i32>
    decreases trace.len(),
{
    if trace.len() == 0 {
        Seq::<i32>::empty()
    } else {
        turn_items(trace[0]) + processed_items(trace.drop_first())
    }
}

/// A trace the loop can produce: every turn but possibly the last lets the
/// worker keep running.
pub open spec fn worker_run(trace: Seq<Turn>) -> bool {
    forall|i: int| 0 <= i < trace.len() - 1 ==> turn_continues(trace[i])
}

/// A finished run: the worker took at least one turn and the last one
/// stopped it.
pub open spec fn worker_run_complete(trace: Seq<Turn>) -> bool {
    &&& worker_run(trace)
    &&& trace.len() > 0
    &&& !turn_continues(trace.last())
}

/// The state the worker is in after this turn.
pub open spec fn spec_step(t: Turn) -> WorkerState {
    if turn_continues(t) {
        WorkerState::Running
    } else {
        WorkerState::Stopping
    }
}

/// One transition of the worker's state machine: stop on a seen shutdown
/// flag or on disconnection, keep running on an item or a timeout.
pub fn worker_step(t: &Turn) -> (s: WorkerState)
    ensures
        s == spec_step(*t),
{
    match t {
        Turn::ShutdownSeen => WorkerState::Stopping,
        Turn::Polled(PollOutcome::Disconnected) => WorkerState::Stopping,
        Turn::Polled(_) => WorkerState::Running,
    }
}

/// Processing distributes over extending a trace by one turn.
pub proof fn lemma_processed_items_push(trace: Seq<Turn>, t: Turn)
    ensures
        processed_items(trace.push(t)) == processed_items(trace) + turn_items(t),
    decreases trace.len(),
{
    if trace.len() == 0 {
        assert(trace.push(t)[0] == t);
        assert(trace.push(t).drop_first() =~= Seq::<Turn>::empty());
        assert(processed_items(trace.push(t)) == turn_items(t) + processed_items(
            Seq::<Turn>::empty(),
        ));
        assert(processed_items(trace.push(t)) =~= processed_items(trace) + turn_items(t));
    } else {
        assert(trace.push(t).drop_first() =~= trace.drop_first().push(t));
        lemma_processed_items_push(trace.drop_first(), t);
        assert(processed_items(trace.push(t)) =~= processed_items(trace) + turn_items(t));
    }
}

/// Drain the channel until the shutdown flag is observed, every producer is
/// gone, or `max_turns` turns have been taken, and hand back the processed
/// payloads together with the trace of the run.
///
/// The trace is a finished run unless the turn budget ran out first; the
/// payloads are exactly the items the trace delivered, in delivery order.
/// A caller that wants the worker to run until it is stopped passes
/// `u64::MAX`: at one bounded wait per turn that budget outlives any host.
pub fn run_worker(
    exit: &ShutdownFlag,
    receiver: &crossbeam_channel::Receiver<i32>,
    wait_millis: u64,
    max_turns: u64,
) -> (r: (Vec<i32>, Ghost<Seq<Turn>>))
    ensures
        worker_run(r.1@),
        r.0@ == processed_items(r.1@),
        worker_run_complete(r.1@) || r.1@.len() == max_turns,
{
    let mut processed: Vec<i32> = Vec::new();
    let ghost mut trace: Seq<Turn> = Seq::<Turn>::empty();
    let mut running: bool = true;
    let mut turns_left: u64 = max_turns;
    while running && turns_left > 0
        invariant
            processed@ == processed_items(trace),
            trace.len() + turns_left == max_turns,
            running ==> forall|i: int| 0 <= i < trace.len() ==> turn_continues(trace[i]),
            !running ==> worker_run_complete(trace),
        decreases turns_left,
    {
        let turn: Turn = if exit.is_set() {
            Turn::ShutdownSeen
        } else {
            Turn::Polled(poll_work(receiver, wait_millis))
        };
        if let Turn::Polled(PollOutcome::Item(work)) = turn {
            processed.push(work);
        }
        if let WorkerState::Stopping = worker_step(&turn) {
            running = false;
        }
        proof {
            lemma_processed_items_push(trace, turn);
            trace = trace.push(turn);
        }
        turns_left = turns_left - 1;
    }
    (processed, Ghost(trace))
}

/// The trace in which `items` are delivered one per turn, in order, and the
/// run then ends with the turn `tail`.
pub open spec fn delivery_trace(items: Seq<i32>, tail: Turn) -> Seq<Turn> {
    Seq::new(items.len(), |i: int| Turn::Polled(PollOutcome::Item(items[i]))).push(tail)
}

/// Law: a worker that is handed a sequence of items in order and is then
/// stopped — by the shutdown flag or by disconnection — finishes its run
/// having processed exactly those items, in delivery order.
pub proof fn lemma_worker_processes_all_in_order(items: Seq<i32>, tail: Turn)
    requires
        !turn_continues(tail),
    ensures
        worker_run_complete(delivery_trace(items, tail)),
        processed_items(delivery_trace(items, tail)) == items,
    decreases items.len(),
{
    let trace = delivery_trace(items, tail);
    if items.len() == 0 {
        assert(trace =~= seq![tail]);
        assert(trace[0] == tail);
        assert(trace.drop_first() =~= Seq::<Turn>::empty());
        assert(turn_items(tail) =~= Seq::<i32>::empty());
        assert(processed_items(trace) == turn_items(trace[0]) + processed_items(
            trace.drop_first(),
        ));
        assert(processed_items(trace) =~= items);
    } else {
        lemma_worker_processes_all_in_order(items.drop_first(), tail);
        assert(trace.drop_first() =~= delivery_trace(items.drop_first(), tail));
        assert(trace[0] == Turn::Polled(PollOutcome::Item(items[0])));
        assert(turn_continues(trace[0]));
        assert(turn_items(trace[0]) =~= seq![items[0]]);
        assert(processed_items(trace) == turn_items(trace[0]) + processed_items(
            trace.drop_first(),
        ));
        assert(processed_items(trace.drop_first()) == items.drop_first());
        assert(seq![items[0]] + items.drop_first() =~= items);
        assert(processed_items(trace) =~= items);
        assert(worker_run_complete(trace)) by {
            let rest = delivery_trace(items.drop_first(), tail);
            assert(forall|i: int|
                1 <= i < trace.len() - 1 ==> trace[i] == rest[i - 1] && turn_continues(
                    #[trigger] trace[i],
                ));
            assert(trace.last() == rest.last());
        }
    }
}

/// Law: once the worker has observed the shutdown flag, it takes no further
/// turn — the observation is the last turn of the run, so the worker stops
/// within the one bounded wait that preceded the observation.
pub proof fn lemma_shutdown_observation_is_final(trace: Seq<Turn>, i: int)
    requires
        worker_run(trace),
        0 <= i < trace.len(),
        trace[i] is ShutdownSeen,
    ensures
        i == trace.len() - 1,
{
    assert(!turn_continues(trace[i]));
}

/// Law: a turn that found every producer dropped is the last turn of the
/// run, whether or not the shutdown flag was ever set.
pub proof fn lemma_disconnection_is_final(trace: Seq<Turn>, i: int)
    requires
        worker_run(trace),
        0 <= i < trace.len(),
        trace[i] == Turn::Polled(PollOutcome::Disconnected),
    ensures
        i == trace.len() - 1,
{
    assert(!turn_continues(trace[i]));
}

} // verus!

