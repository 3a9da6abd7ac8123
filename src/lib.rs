//! Bridges a blocking media-player source (an event iterator or a progress tracker)
//! into pollable streams: one producer fills a shared bridge, consumers poll it.
use vstd::prelude::*;

pub mod bridge;
pub mod discovery;
pub mod events;
pub mod laws;
pub mod progress;

use crate::discovery::PlayerStream;

verus! {

/// A stream of players that keeps looking for more, every `retry_delay` milliseconds.
pub fn stream_players(retry_delay: u64) -> (r: PlayerStream)
    ensures
        r.delay() == retry_delay,
{
    PlayerStream::new(retry_delay)
}

} // verus!
