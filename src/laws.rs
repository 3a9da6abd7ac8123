//! Properties of the bridge over whole runs of producer and consumer steps.
use vstd::prelude::*;
use crate::bridge::{BridgeView, PollOutcome, Produced};
use crate::progress::{Tick, after_tick, emits};

verus! {

/// One step of a run: the producer queues an item, or the consumer polls.
pub enum Step<T> {
    Produce(T),
    Poll,
}

/// The items that the producer queued in a run, in order.
pub open spec fn produced<T>(ops: Seq<Step<T>>) -> Seq<T>
    decreases ops.len(),
{
    if ops.len() == 0 {
        Seq::empty()
    } else {
        let before = produced(ops.drop_last());
        match ops.last() {
            Step::Produce(x) => before.push(x),
            Step::Poll => before,
        }
    }
}

/// The state after a run from `v` in which the consumer polls with `w`, and the items
/// the consumer received, in order.
pub open spec fn run<T, W>(v: BridgeView<T, W>, ops: Seq<Step<T>>, w: W) -> (BridgeView<T, W>, Seq<T>)
    decreases ops.len(),
{
    if ops.len() == 0 {
        (v, Seq::empty())
    } else {
        let (u, got) = run(v, ops.drop_last(), w);
        match ops.last() {
            Step::Produce(x) => (u.after_deliver(Produced::Item(x)), got),
            Step::Poll => (
                u.after_poll(w),
                match u.poll_outcome() {
                    PollOutcome::Ready(y) => got.push(y),
                    _ => got,
                },
            ),
        }
    }
}

/// What `n` successive polls with `w` report, starting from `v`.
pub open spec fn poll_outcomes<T, W>(v: BridgeView<T, W>, w: W, n: nat) -> Seq<PollOutcome<T>>
    decreases n,
{
    if n == 0 {
        Seq::empty()
    } else {
        seq![v.poll_outcome()] + poll_outcomes(v.after_poll(w), w, (n - 1) as nat)
    }
}

/// While producer and consumer interleave, nothing is lost, duplicated or reordered:
/// what the consumer received, followed by what is still queued, is exactly what the
/// producer queued, in order.
pub proof fn lemma_interleaved_run_keeps_order<T, W>(v: BridgeView<T, W>, ops: Seq<Step<T>>, w: W)
    requires
        !v.terminated,
        v.queue.len() == 0,
    ensures
        run(v, ops, w).1 + run(v, ops, w).0.queue == produced(ops),
        !run(v, ops, w).0.terminated,
    decreases ops.len(),
{
    if ops.len() > 0 {
        lemma_interleaved_run_keeps_order(v, ops.drop_last(), w);
        let (u, got) = run(v, ops.drop_last(), w);
        match ops.last() {
            Step::Produce(x) => {
                assert(got + u.queue.push(x) =~= (got + u.queue).push(x));
            },
            Step::Poll => {
                if u.queue.len() > 0 {
                    assert(got.push(u.queue[0]) + u.queue.drop_first() =~= got + u.queue);
                }
            },
        }
    }
}

/// After termination the consumer receives every queued item in order, and then the end.
pub proof fn lemma_terminated_queue_drains_in_order<T, W>(v: BridgeView<T, W>, w: W)
    requires
        v.terminated,
    ensures
        poll_outcomes(v, w, v.queue.len() + 1) == v.queue.map_values(|x: T| PollOutcome::Ready(x)).push(
            PollOutcome::Ended,
        ),
    decreases v.queue.len(),
{
    let n = v.queue.len();
    if n == 0 {
        assert(poll_outcomes(v.after_poll(w), w, 0) == Seq::<PollOutcome<T>>::empty());
        assert(poll_outcomes(v, w, 1) =~= seq![PollOutcome::<T>::Ended]);
        assert(v.queue.map_values(|x: T| PollOutcome::Ready(x)).push(PollOutcome::Ended) =~= seq![
            PollOutcome::<T>::Ended,
        ]);
    } else {
        let u = v.after_poll(w);
        lemma_terminated_queue_drains_in_order(u, w);
        assert(poll_outcomes(v, w, n + 1) == seq![v.poll_outcome()] + poll_outcomes(u, w, n));
        assert(v.queue.map_values(|x: T| PollOutcome::Ready(x)).push(PollOutcome::Ended) =~= seq![
            PollOutcome::Ready(v.queue[0]),
        ] + u.queue.map_values(|x: T| PollOutcome::Ready(x)).push(PollOutcome::Ended));
    }
}

/// A source that produces `xs` and then terminates, drained by one consumer: the consumer
/// receives exactly `xs`, in order, and then the end (for empty `xs`, only the end).
pub proof fn lemma_source_items_arrive_in_order<T, W>(v: BridgeView<T, W>, xs: Seq<T>, w: W)
    requires
        !v.terminated,
        v.queue.len() == 0,
    ensures
        ({
            let ops = xs.map_values(|x: T| Step::Produce(x));
            let done = run(v, ops, w).0.after_deliver(Produced::Terminated);
            poll_outcomes(done, w, xs.len() + 1) == xs.map_values(|x: T| PollOutcome::Ready(x)).push(
                PollOutcome::Ended,
            )
        }),
    decreases xs.len(),
{
    let ops = xs.map_values(|x: T| Step::Produce(x));
    lemma_produce_only_run(v, xs, w);
    lemma_interleaved_run_keeps_order(v, ops, w);
    let done = run(v, ops, w).0.after_deliver(Produced::Terminated);
    assert(run(v, ops, w).1 =~= Seq::<T>::empty());
    assert(run(v, ops, w).0.queue =~= xs);
    lemma_terminated_queue_drains_in_order(done, w);
}

proof fn lemma_produce_only_run<T, W>(v: BridgeView<T, W>, xs: Seq<T>, w: W)
    ensures
        produced(xs.map_values(|x: T| Step::Produce(x))) == xs,
        run(v, xs.map_values(|x: T| Step::Produce(x)), w).1 == Seq::<T>::empty(),
    decreases xs.len(),
{
    let ops = xs.map_values(|x: T| Step::Produce(x));
    if xs.len() > 0 {
        lemma_produce_only_run(v, xs.drop_last(), w);
        assert(ops.drop_last() =~= xs.drop_last().map_values(|x: T| Step::Produce(x)));
        assert(xs.drop_last().push(xs.last()) =~= xs);
    } else {
        assert(xs =~= Seq::<T>::empty());
    }
}

/// Once the end has been reported, every later poll reports the end again, and no
/// producer step changes that.
pub proof fn lemma_end_is_absorbing<T, W>(v: BridgeView<T, W>, w: W, p: Produced<T>, n: nat)
    requires
        v.is_exhausted(),
    ensures
        v.poll_outcome() == PollOutcome::<T>::Ended,
        v.after_poll(w).is_exhausted(),
        v.after_deliver(p).is_exhausted(),
        poll_outcomes(v, w, n).len() == n,
        forall|i: int| 0 <= i < n ==> poll_outcomes(v, w, n)[i] == PollOutcome::<T>::Ended,
    decreases n,
{
    if n > 0 {
        let rest = poll_outcomes(v.after_poll(w), w, (n - 1) as nat);
        lemma_end_is_absorbing(v.after_poll(w), w, p, (n - 1) as nat);
        assert(poll_outcomes(v, w, n) == seq![v.poll_outcome()] + rest);
        assert forall|i: int| 0 <= i < n implies poll_outcomes(v, w, n)[i] == PollOutcome::<T>::Ended by {
            if i > 0 {
                assert(poll_outcomes(v, w, n)[i] == rest[i - 1]);
            }
        }
    }
}

/// A poll that reports pending leaves its waker registered, and the next producer step,
/// whether it queues an item or ends the stream, hands that waker back to be woken.
pub proof fn lemma_pending_poll_is_woken<T, W>(v: BridgeView<T, W>, w: W, p: Produced<T>)
    requires
        v.poll_outcome() == PollOutcome::<T>::Pending,
    ensures
        v.after_poll(w).waiting.contains(w),
        v.after_poll(w).woken_by(p).contains(w),
{
    let u = v.after_poll(w);
    assert(u.waiting[u.waiting.len() - 1] == w);
}

/// After a pending poll, the next tick that reports a change queues its snapshot and
/// hands the poller's waker back to be woken.
pub proof fn lemma_pending_poll_sees_next_change<T, W>(v: BridgeView<T, W>, w: W, t: Tick<T>)
    requires
        v.poll_outcome() == PollOutcome::<T>::Pending,
        t.progress_changed,
        !t.player_quit,
    ensures
        emits(v.after_poll(w), t),
        after_tick(v.after_poll(w), t).queue == v.queue.push(t.progress),
        v.after_poll(w).woken_by(Produced::Item(t.progress)).contains(w),
{
    lemma_pending_poll_is_woken(v, w, Produced::Item(t.progress));
}

/// A tick that reports neither a change nor a quit queues nothing: between two such
/// ticks the consumer sees no snapshot.
pub proof fn lemma_unchanged_ticks_emit_nothing<T, W>(v: BridgeView<T, W>, t1: Tick<T>, t2: Tick<T>)
    requires
        !t1.progress_changed,
        !t1.player_quit,
        !t2.progress_changed,
        !t2.player_quit,
    ensures
        after_tick(v, t1) == v,
        after_tick(after_tick(v, t1), t2) == v,
{
}

} // verus!
