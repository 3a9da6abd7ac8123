//! The producer step of the progress bridge: a snapshot is queued only when the
//! tracker reports a change and some consumer is waiting for it.
use vstd::prelude::*;
use crate::bridge::{Bridge, BridgeView, Produced};

verus! {

/// One sampling cycle of the progress tracker.
pub struct Tick<T> {
    /// The tracker saw a change since the previous tick.
    pub progress_changed: bool,
    /// The player quit.
    pub player_quit: bool,
    /// The snapshot taken at this tick.
    pub progress: T,
}

/// Whether the tick queues its snapshot on a bridge in state `v`.
pub open spec fn emits<T, W>(v: BridgeView<T, W>, t: Tick<T>) -> bool {
    !t.player_quit && t.progress_changed && v.waiting.len() > 0
}

/// The state after the progress worker's step.
pub open spec fn after_tick<T, W>(v: BridgeView<T, W>, t: Tick<T>) -> BridgeView<T, W> {
    if t.player_quit {
        v.after_deliver(Produced::Terminated)
    } else if emits(v, t) {
        v.after_deliver(Produced::Item(t.progress))
    } else {
        v
    }
}

/// One step of the progress worker. A quit player ends the stream. A changed snapshot
/// is queued, and the waiting consumers woken, only if a consumer is waiting; otherwise
/// nothing is queued. Hands back the wakers to wake and whether the worker ticks on.
pub fn tick_step<T, W>(bridge: &mut Bridge<T, W>, t: Tick<T>) -> (r: (Vec<W>, bool))
    ensures
        final(bridge)@ == after_tick(old(bridge)@, t),
        t.player_quit ==> r.0@ == old(bridge)@.woken_by(Produced::<T>::Terminated) && !r.1,
        emits(old(bridge)@, t) ==> r.0@ == old(bridge)@.woken_by(Produced::Item(t.progress))
            && r.1 == !old(bridge)@.terminated,
        !t.player_quit && !emits(old(bridge)@, t) ==> r.0@ == Seq::<W>::empty() && r.1
            == !old(bridge)@.terminated,
{
    if t.player_quit {
        bridge.deliver(Produced::Terminated)
    } else if t.progress_changed && bridge.has_waiting() {
        bridge.deliver(Produced::Item(t.progress))
    } else {
        (Vec::new(), !bridge.is_terminated())
    }
}

} // verus!
