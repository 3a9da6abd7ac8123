//! The producer step of the event bridge: every event of the source is queued in
//! the order it came, and the player's shutdown is the termination sentinel.
use vstd::prelude::*;
use crate::bridge::{Bridge, Produced};

verus! {

/// What the event worker read from its source.
pub enum SourceEvent<T> {
    /// An ordinary player event.
    Event(T),
    /// The player shut down.
    ShutDown,
    /// The player could not be found again, or its event source failed or ran out.
    Unavailable,
}

/// How the event worker's step changes the bridge.
pub open spec fn produced_of<T>(e: SourceEvent<T>) -> Produced<T> {
    match e {
        SourceEvent::Event(x) => Produced::Item(x),
        _ => Produced::Terminated,
    }
}

/// One step of the event worker: forwards `e` into the bridge. Hands back the wakers to
/// wake and whether the worker reads on. A shutdown or a failed source ends the stream.
pub fn event_step<T, W>(bridge: &mut Bridge<T, W>, e: SourceEvent<T>) -> (r: (Vec<W>, bool))
    ensures
        r.0@ == old(bridge)@.woken_by(produced_of(e)),
        r.1 == old(bridge)@.continues_after(produced_of(e)),
        final(bridge)@ == old(bridge)@.after_deliver(produced_of(e)),
{
    let p = match e {
        SourceEvent::Event(x) => Produced::Item(x),
        _ => Produced::Terminated,
    };
    bridge.deliver(p)
}

} // verus!
