//! Runs of operations that take several steps.

use vstd::prelude::*;

use crate::error::Error;
use crate::event::{Event, Stepwise};

verus! {

/// To run through two sequences of events one after the other is to run through both at once.
pub proof fn law_run_in_parts<S: Stepwise>(state: S, before: Seq<Event>, after: Seq<Event>)
    ensures
        crate::event::run(state, before + after) == crate::event::run(
            crate::event::run(state, before),
            after,
        ),
    decreases before.len(),
{
    if before.len() == 0 {
        assert(before + after =~= after);
    } else {
        assert((before + after).drop_first() =~= before.drop_first() + after);
        law_run_in_parts(state.next(before[0]), before.drop_first(), after);
    }
}

/// So many searches for a random port that fail for want of entropy, one after the other.
pub open spec fn fruitless(searches: nat) -> Seq<Event> {
    Seq::new(searches, |i: int| Event::Drawn(Err(Error::EntropyError)))
}

pub(crate) proof fn lemma_run_empty<S: Stepwise>(state: S)
    ensures
        crate::event::run(state, Seq::empty()) == state,
{
}

pub(crate) proof fn lemma_run_first<S: Stepwise>(state: S, event: Event, rest: Seq<Event>)
    ensures
        crate::event::run(state, seq![event] + rest) == crate::event::run(state.next(event), rest),
{
    assert((seq![event] + rest).drop_first() =~= rest);
}

pub(crate) proof fn lemma_run_one<S: Stepwise>(state: S, event: Event)
    ensures
        crate::event::run(state, seq![event]) == state.next(event),
{
    lemma_run_first(state, event, Seq::empty());
    assert(seq![event] + Seq::<Event>::empty() =~= seq![event]);
}

} // verus!
