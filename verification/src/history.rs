//! Whole runs: the state after a sequence of events, the actions that answered
//! them, and what of those actions reached the observer and the import engine.

use vstd::prelude::*;
use crate::catalog::{ImportCall, System};
use crate::orchestrator::{advance, Action, Event, RunView};

verus! {

/// The run after `events`, taken one after another.
pub open spec fn after<H, E>(run: RunView<H>, events: Seq<Event<H, E>>) -> RunView<H>
    decreases events.len(),
{
    if events.len() == 0 {
        run
    } else {
        advance(after(run, events.drop_last()), events.last()).0
    }
}

/// The actions that answered `events`, in order.
pub open spec fn trace<H, E>(run: RunView<H>, events: Seq<Event<H, E>>) -> Seq<Action<H, E>>
    decreases events.len(),
{
    if events.len() == 0 {
        Seq::empty()
    } else {
        trace(run, events.drop_last()).push(
            advance(after(run, events.drop_last()), events.last()).1,
        )
    }
}

/// The import calls among `actions`, in order.
pub open spec fn imports_of<H, E>(actions: Seq<Action<H, E>>) -> Seq<ImportCall<H>>
    decreases actions.len(),
{
    if actions.len() == 0 {
        Seq::empty()
    } else {
        let earlier = imports_of(actions.drop_last());
        match actions.last() {
            Action::Import(call) => earlier.push(call),
            _ => earlier,
        }
    }
}

/// The systems announced to the observer among `actions`, in order.
pub open spec fn notices_of<H, E>(actions: Seq<Action<H, E>>) -> Seq<System>
    decreases actions.len(),
{
    if actions.len() == 0 {
        Seq::empty()
    } else {
        let earlier = notices_of(actions.drop_last());
        match actions.last() {
            Action::Notify(system) => earlier.push(system),
            _ => earlier,
        }
    }
}

/// One more event extends the run by one step.
pub proof fn lemma_one_more<H, E>(run: RunView<H>, events: Seq<Event<H, E>>, event: Event<H, E>)
    ensures
        after(run, events.push(event)) == advance(after(run, events), event).0,
        trace(run, events.push(event)) == trace(run, events).push(
            advance(after(run, events), event).1,
        ),
{
    assert(events.push(event).drop_last() =~= events);
}

/// A run over `first` and then `second` is the run over `second` begun where
/// `first` left it.
pub proof fn lemma_in_two_parts<H, E>(
    run: RunView<H>,
    first: Seq<Event<H, E>>,
    second: Seq<Event<H, E>>,
)
    ensures
        after(run, first + second) == after(after(run, first), second),
        trace(run, first + second) == trace(run, first) + trace(after(run, first), second),
        trace(run, first).len() == first.len(),
    decreases second.len(),
{
    lemma_trace_len(run, first);
    if second.len() > 0 {
        let shorter = second.drop_last();
        lemma_in_two_parts(run, first, shorter);
        assert((first + second).drop_last() =~= first + shorter);
    }
}

/// Each event is answered by exactly one action.
pub proof fn lemma_trace_len<H, E>(run: RunView<H>, events: Seq<Event<H, E>>)
    ensures
        trace(run, events).len() == events.len(),
    decreases events.len(),
{
    if events.len() > 0 {
        lemma_trace_len(run, events.drop_last());
    }
}

/// The import calls and the notices of two stretches of actions follow one
/// another as the stretches do.
pub proof fn lemma_projections_in_two_parts<H, E>(
    first: Seq<Action<H, E>>,
    second: Seq<Action<H, E>>,
)
    ensures
        imports_of(first + second) == imports_of(first) + imports_of(second),
        notices_of(first + second) == notices_of(first) + notices_of(second),
    decreases second.len(),
{
    if second.len() > 0 {
        let shorter = second.drop_last();
        lemma_projections_in_two_parts(first, shorter);
        assert((first + second).drop_last() =~= first + shorter);
    }
}

} // verus!
