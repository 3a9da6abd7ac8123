//! Decisions of the loops that look for a player: retry after a delay while no
//! player is found, stop on success or on a bus failure.
use vstd::prelude::*;

verus! {

/// What one lookup of the player finder gave.
pub enum Lookup<P, E> {
    Found(P),
    NoPlayerFound,
    Failed(E),
}

/// What a waiting lookup loop does next.
pub enum RetryStep<P, E> {
    /// Stop with this result.
    Done(Result<P, E>),
    /// Sleep this many milliseconds, then look again.
    Wait(u64),
}

/// What a player stream does next.
pub enum StreamStep<P> {
    /// Hand out this player.
    Yield(P),
    /// Sleep this many milliseconds, then look again.
    Wait(u64),
}

/// The decision of a loop that waits for a player: a found player or a bus failure ends
/// it, no player yet means another look after `retry_delay` milliseconds.
pub fn retry_step<P, E>(lookup: Lookup<P, E>, retry_delay: u64) -> (r: RetryStep<P, E>)
    ensures
        match lookup {
            Lookup::Found(p) => r == RetryStep::<P, E>::Done(Ok(p)),
            Lookup::NoPlayerFound => r == RetryStep::<P, E>::Wait(retry_delay),
            Lookup::Failed(e) => r == RetryStep::<P, E>::Done(Err(e)),
        },
{
    match lookup {
        Lookup::Found(p) => RetryStep::Done(Ok(p)),
        Lookup::NoPlayerFound => RetryStep::Wait(retry_delay),
        Lookup::Failed(e) => RetryStep::Done(Err(e)),
    }
}

/// A stream of players that never gives up looking.
pub struct PlayerStream {
    retry_delay: u64,
}

impl PlayerStream {
    pub closed spec fn delay(&self) -> u64 {
        self.retry_delay
    }

    /// A stream that looks again every `retry_delay` milliseconds.
    pub fn new(retry_delay: u64) -> (r: PlayerStream)
        ensures
            r.delay() == retry_delay,
    {
        PlayerStream { retry_delay }
    }

    /// Milliseconds between two looks.
    pub fn retry_delay(&self) -> (r: u64)
        ensures
            r == self.delay(),
    {
        self.retry_delay
    }

    /// The decision after one look: a found player is handed out; no player, or a bus
    /// failure, means another look after the stream's delay.
    pub fn next_step<P, E>(&self, lookup: Lookup<P, E>) -> (r: StreamStep<P>)
        ensures
            match lookup {
                Lookup::Found(p) => r == StreamStep::Yield(p),
                _ => r == StreamStep::<P>::Wait(self.delay()),
            },
    {
        match lookup {
            Lookup::Found(p) => StreamStep::Yield(p),
            _ => StreamStep::Wait(self.retry_delay),
        }
    }
}

} // verus!
