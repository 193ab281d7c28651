//! The drain discipline: payloads cross the relay strictly first-in
//! first-out, and each drain invocation moves at most one of them.
//!
//! The definitions here describe the relay's lifetime as a trace of steps -
//! a producer enqueueing a payload, or the per-tick drain system running
//! once - and the lemmas state what every interleaving of the two sides
//! guarantees: order is never lost, and once the producers fall silent,
//! as many drain invocations as there are queued payloads republish all of
//! them, oldest first.

use vstd::prelude::*;

verus! {

/// One step of relay activity: a producer enqueues the next payload, or the
/// per-tick drain system runs once.
pub enum RelayStep<T> {
    Produce(T),
    Drain,
}

/// The queue after one step. A drain on an empty queue changes nothing.
pub open spec fn step_queue<T>(queue: Seq<T>, step: RelayStep<T>) -> Seq<T> {
    match step {
        RelayStep::Produce(m) => queue.push(m),
        RelayStep::Drain => if queue.len() == 0 {
            queue
        } else {
            queue.drop_first()
        },
    }
}

/// What the bus has received after one step: a drain republishes the oldest
/// queued payload, and at most that one.
pub open spec fn step_delivered<T>(queue: Seq<T>, delivered: Seq<T>, step: RelayStep<T>) -> Seq<
    T,
> {
    match step {
        RelayStep::Produce(_) => delivered,
        RelayStep::Drain => if queue.len() == 0 {
            delivered
        } else {
            delivered.push(queue.first())
        },
    }
}

/// The queue after a whole trace of steps.
pub open spec fn run_queue<T>(queue: Seq<T>, trace: Seq<RelayStep<T>>) -> Seq<T>
    decreases trace.len(),
{
    if trace.len() == 0 {
        queue
    } else {
        run_queue(step_queue(queue, trace.first()), trace.drop_first())
    }
}

/// What the bus has received after a whole trace of steps.
pub open spec fn run_delivered<T>(
    queue: Seq<T>,
    delivered: Seq<T>,
    trace: Seq<RelayStep<T>>,
) -> Seq<T>
    decreases trace.len(),
{
    if trace.len() == 0 {
        delivered
    } else {
        run_delivered(
            step_queue(queue, trace.first()),
            step_delivered(queue, delivered, trace.first()),
            trace.drop_first(),
        )
    }
}

/// The payloads that a trace produces, in production order.
pub open spec fn produced<T>(trace: Seq<RelayStep<T>>) -> Seq<T>
    decreases trace.len(),
{
    if trace.len() == 0 {
        Seq::empty()
    } else {
        match trace.first() {
            RelayStep::Produce(m) => seq![m] + produced(trace.drop_first()),
            RelayStep::Drain => produced(trace.drop_first()),
        }
    }
}

/// A trace made of drain invocations alone.
pub open spec fn drains<T>(n: nat) -> Seq<RelayStep<T>> {
    Seq::new(n, |i: int| RelayStep::Drain)
}

/// Order is never lost: whatever the interleaving of producers and drains,
/// what the bus has received followed by what is still queued is exactly what
/// had been received and queued at the start followed by every produced
/// payload, in production order.
pub proof fn lemma_relay_preserves_order<T>(
    queue: Seq<T>,
    delivered: Seq<T>,
    trace: Seq<RelayStep<T>>,
)
    ensures
        run_delivered(queue, delivered, trace) + run_queue(queue, trace) == delivered + queue
            + produced(trace),
    decreases trace.len(),
{
    if trace.len() == 0 {
        assert(run_delivered(queue, delivered, trace) + run_queue(queue, trace) =~= delivered
            + queue + produced(trace));
    } else {
        let step = trace.first();
        let rest = trace.drop_first();
        match step {
            RelayStep::Produce(m) => {
                lemma_relay_preserves_order(queue.push(m), delivered, rest);
                assert(delivered + queue.push(m) + produced(rest) =~= delivered + queue + (seq![m]
                    + produced(rest)));
            },
            RelayStep::Drain => {
                if queue.len() == 0 {
                    lemma_relay_preserves_order(queue, delivered, rest);
                } else {
                    lemma_relay_preserves_order(queue.drop_first(), delivered.push(queue.first()), rest);
                    assert(delivered.push(queue.first()) + queue.drop_first() + produced(rest)
                        =~= delivered + queue + produced(rest));
                }
            },
        }
    }
}

/// Enough drains empty the queue: with at least as many drain invocations as
/// queued payloads, every one of them reaches the bus, oldest first, and
/// nothing stays behind.
pub proof fn lemma_enough_drains_deliver_all<T>(queue: Seq<T>, delivered: Seq<T>, n: nat)
    requires
        n >= queue.len(),
    ensures
        run_queue(queue, drains::<T>(n)) == Seq::<T>::empty(),
        run_delivered(queue, delivered, drains::<T>(n)) == delivered + queue,
    decreases n,
{
    if n == 0 {
        assert(delivered + queue =~= delivered);
    } else {
        let all: Seq<RelayStep<T>> = drains::<T>(n);
        assert(all.drop_first() =~= drains::<T>((n - 1) as nat));
        if queue.len() == 0 {
            lemma_enough_drains_deliver_all(queue, delivered, (n - 1) as nat);
            assert(delivered + queue =~= delivered);
        } else {
            lemma_enough_drains_deliver_all(
                queue.drop_first(),
                delivered.push(queue.first()),
                (n - 1) as nat,
            );
            assert(delivered.push(queue.first()) + queue.drop_first() =~= delivered + queue);
        }
    }
}

/// The bus never sees a payload early, out of order, or twice: at every point
/// of any interleaving, what it has received is a prefix of what has been
/// produced.
pub proof fn lemma_delivered_is_prefix_of_produced<T>(trace: Seq<RelayStep<T>>)
    ensures
        run_delivered(Seq::<T>::empty(), Seq::<T>::empty(), trace).is_prefix_of(produced(trace)),
{
    let q0 = Seq::<T>::empty();
    lemma_relay_preserves_order(q0, q0, trace);
    assert(run_delivered(q0, q0, trace) + run_queue(q0, trace) =~= produced(trace));
}

/// Running a trace in two pieces is running it whole.
pub proof fn lemma_run_split<T>(
    queue: Seq<T>,
    delivered: Seq<T>,
    front: Seq<RelayStep<T>>,
    back: Seq<RelayStep<T>>,
)
    ensures
        run_queue(queue, front + back) == run_queue(run_queue(queue, front), back),
        run_delivered(queue, delivered, front + back) == run_delivered(
            run_queue(queue, front),
            run_delivered(queue, delivered, front),
            back,
        ),
    decreases front.len(),
{
    if front.len() == 0 {
        assert(front + back =~= back);
    } else {
        let step = front.first();
        let q1 = step_queue(queue, step);
        let d1 = step_delivered(queue, delivered, step);
        assert((front + back).first() == step);
        assert((front + back).drop_first() =~= front.drop_first() + back);
        lemma_run_split(q1, d1, front.drop_first(), back);
    }
}

/// The relay is a FIFO pipe: starting from rest, after any interleaving of
/// produces and drains, as many further drain invocations as there are
/// payloads still queued leave the bus with exactly the produced payloads,
/// in production order, none lost and none duplicated.
pub proof fn lemma_relay_fifo<T>(trace: Seq<RelayStep<T>>, n: nat)
    requires
        n >= run_queue(Seq::<T>::empty(), trace).len(),
    ensures
        run_delivered(Seq::<T>::empty(), Seq::<T>::empty(), trace + drains::<T>(n)) == produced(
            trace,
        ),
{
    let q0 = Seq::<T>::empty();
    let q1 = run_queue(q0, trace);
    let d1 = run_delivered(q0, q0, trace);
    lemma_run_split(q0, q0, trace, drains::<T>(n));
    lemma_enough_drains_deliver_all(q1, d1, n);
    lemma_relay_preserves_order(q0, q0, trace);
    assert(q0 + q0 + produced(trace) =~= produced(trace));
}

} // verus!
