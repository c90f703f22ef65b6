//! What an operation that takes several steps is told.

use vstd::prelude::*;

use crate::error::Error;
use crate::socket::Vsock;

verus! {

/// What an operation that is under way is told.
#[derive(Debug, PartialEq, Eq)]
pub enum Event {
    /// A random port was searched for.
    Drawn(Result<u32, Error>),
    /// The system call that the operation asked for has returned.
    Returned(Result<i32, Error>),
}

impl Event {
    /// This event can happen: ports that are drawn are unprivileged, a search fails only for want
    /// of entropy, and what a system call that worked returns is not negative.
    pub open spec fn possible(self) -> bool {
        match self {
            Event::Drawn(drawn) => crate::port::drawable(drawn),
            Event::Returned(Ok(value)) => value >= 0,
            Event::Returned(Err(_)) => true,
        }
    }
}

/// An operation that takes several steps.
pub trait Stepwise: Sized {
    /// What comes after the event. An event that is not waited for changes nothing.
    spec fn next(self, event: Event) -> Self;
}

/// What comes after the events, in their order.
pub open spec fn run<S: Stepwise>(state: S, events: Seq<Event>) -> S
    decreases events.len(),
{
    if events.len() == 0 {
        state
    } else {
        run(state.next(events[0]), events.drop_first())
    }
}

/// Random ports are searched for, each with a result that a search may come to, and nothing else
/// happens.
pub open spec fn only_draws(events: Seq<Event>) -> bool {
    forall|i: int|
        0 <= i < events.len() ==> (#[trigger] events[i] matches Event::Drawn(drawn)
            && Vsock::may_draw(Some(drawn)))
}

} // verus!
