//! The state shared by every clone of one bridge: the queue of produced items,
//! whether the termination sentinel has been delivered, and the wakers of the
//! consumers that are waiting for the next item.
use vstd::prelude::*;

verus! {

/// What a consumer's poll reports.
pub enum PollOutcome<T> {
    /// The oldest queued item, handed to this consumer.
    Ready(T),
    /// Nothing queued yet; the consumer's waker has been registered.
    Pending,
    /// The source has terminated and every item has been consumed.
    Ended,
}

/// What the producer hands to the bridge on each step of its loop.
pub enum Produced<T> {
    Item(T),
    Terminated,
}

/// The mathematical state of a bridge.
pub struct BridgeView<T, W> {
    /// Items produced and not yet consumed, oldest first.
    pub queue: Seq<T>,
    /// Whether the termination sentinel has been delivered.
    pub terminated: bool,
    /// Wakers registered since the producer last drained them, in order.
    pub waiting: Seq<W>,
}

impl<T, W> BridgeView<T, W> {
    /// Every item consumed after termination: the absorbing state.
    pub open spec fn is_exhausted(self) -> bool {
        self.terminated && self.queue.len() == 0
    }

    /// What a poll reports from this state.
    pub open spec fn poll_outcome(self) -> PollOutcome<T> {
        if self.queue.len() > 0 {
            PollOutcome::Ready(self.queue[0])
        } else if self.terminated {
            PollOutcome::Ended
        } else {
            PollOutcome::Pending
        }
    }

    /// The state after a poll with `w`: `w` is registered, the oldest item (if any) is taken.
    pub open spec fn after_poll(self, w: W) -> BridgeView<T, W> {
        BridgeView {
            queue: if self.queue.len() > 0 { self.queue.drop_first() } else { self.queue },
            terminated: self.terminated,
            waiting: self.waiting.push(w),
        }
    }

    /// The wakers that a producer step hands back to be woken.
    pub open spec fn woken_by(self, p: Produced<T>) -> Seq<W> {
        if self.terminated { Seq::empty() } else { self.waiting }
    }

    /// Whether the producer goes on after the step.
    pub open spec fn continues_after(self, p: Produced<T>) -> bool {
        !self.terminated && p is Item
    }

    /// The state after a producer step. Nothing changes once terminated.
    pub open spec fn after_deliver(self, p: Produced<T>) -> BridgeView<T, W> {
        if self.terminated {
            self
        } else {
            match p {
                Produced::Item(x) => BridgeView {
                    queue: self.queue.push(x),
                    terminated: false,
                    waiting: Seq::empty(),
                },
                Produced::Terminated => BridgeView {
                    queue: self.queue,
                    terminated: true,
                    waiting: Seq::empty(),
                },
            }
        }
    }
}

/// Shared state of one bridge lineage. `T` is the payload, `W` a waker handle.
pub struct Bridge<T, W> {
    items: Vec<T>,
    terminated: bool,
    wakers: Vec<W>,
}

impl<T, W> View for Bridge<T, W> {
    type V = BridgeView<T, W>;

    closed spec fn view(&self) -> BridgeView<T, W> {
        BridgeView { queue: self.items@, terminated: self.terminated, waiting: self.wakers@ }
    }
}

impl<T, W> Bridge<T, W> {
    /// A fresh bridge: running, nothing queued, nobody waiting.
    pub fn new() -> (r: Self)
        ensures
            r@.queue == Seq::<T>::empty(),
            !r@.terminated,
            r@.waiting == Seq::<W>::empty(),
    {
        Bridge { items: Vec::new(), terminated: false, wakers: Vec::new() }
    }

    /// Whether the termination sentinel has been delivered.
    pub fn is_terminated(&self) -> (r: bool)
        ensures
            r == self@.terminated,
    {
        self.terminated
    }

    /// Whether some consumer is waiting for the next item.
    pub fn has_waiting(&self) -> (r: bool)
        ensures
            r == (self@.waiting.len() > 0),
    {
        self.wakers.len() > 0
    }

    /// Consumer side. Registers `waker` first, then takes the oldest item if there is one.
    pub fn poll(&mut self, waker: W) -> (r: PollOutcome<T>)
        ensures
            r == old(self)@.poll_outcome(),
            final(self)@ == old(self)@.after_poll(waker),
    {
        self.wakers.push(waker);
        if self.items.len() > 0 {
            let item = self.items.remove(0);
            proof {
                assert(self.items@ =~= old(self).items@.drop_first());
            }
            PollOutcome::Ready(item)
        } else if self.terminated {
            PollOutcome::Ended
        } else {
            PollOutcome::Pending
        }
    }

    /// Producer side. Takes every registered waker out, oldest first, leaving none.
    fn drain_wakers(&mut self) -> (r: Vec<W>)
        ensures
            r@ == old(self)@.waiting,
            final(self)@ == (BridgeView { waiting: Seq::empty(), ..old(self)@ }),
    {
        let mut taken: Vec<W> = Vec::new();
        core::mem::swap(&mut taken, &mut self.wakers);
        taken
    }

    /// Producer side. Applies one step of the source: queues an item, or delivers the
    /// termination sentinel (items already queued stay to be consumed). Hands back the
    /// wakers to wake and whether the producer goes on. Once terminated nothing changes.
    pub fn deliver(&mut self, p: Produced<T>) -> (r: (Vec<W>, bool))
        ensures
            r.0@ == old(self)@.woken_by(p),
            r.1 == old(self)@.continues_after(p),
            final(self)@ == old(self)@.after_deliver(p),
    {
        if self.terminated {
            return (Vec::new(), false);
        }
        match p {
            Produced::Item(x) => {
                self.items.push(x);
                (self.drain_wakers(), true)
            },
            Produced::Terminated => {
                self.terminated = true;
                (self.drain_wakers(), false)
            },
        }
    }
}

} // verus!
