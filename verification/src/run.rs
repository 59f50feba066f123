//! Whole runs: a reconciler, the events that its caller reports one after
//! another, and the actions that it asks for in turn.

use vstd::prelude::*;
use crate::change::ChangeView;
use crate::reconcile::{
    action_of,
    next_state,
    Action,
    ActionView,
    Event,
    EventView,
    Reconciler,
    State,
};

verus! {

/// The state in which `events`, reported in order, leave a run that stood in
/// `state`.
pub open spec fn state_after(state: State, events: Seq<EventView>) -> State
    decreases events.len(),
{
    if events.len() == 0 {
        state
    } else {
        next_state(state_after(state, events.drop_last()), events.last())
    }
}

/// The actions that a run in `state` asks for as `events` are reported in
/// order: one for each event, until the run has ended. Events that come after
/// the end are answered by nothing.
pub open spec fn answers(state: State, events: Seq<EventView>) -> Seq<ActionView>
    decreases events.len(),
{
    if events.len() == 0 {
        Seq::empty()
    } else {
        let before = state_after(state, events.drop_last());
        let earlier = answers(state, events.drop_last());
        if before.ended() {
            earlier
        } else {
            earlier.push(action_of(next_state(before, events.last())))
        }
    }
}

/// Every action of a run that stands in `state` and is reported `events`:
/// the action of `state` itself, then the answers to the events.
pub open spec fn actions(state: State, events: Seq<EventView>) -> Seq<ActionView> {
    seq![action_of(state)] + answers(state, events)
}

/// How many status queries `actions` hold.
pub open spec fn queries(actions: Seq<ActionView>) -> nat {
    actions.filter(|action: ActionView| action is QueryStatus).len()
}

/// How many updates `actions` hold.
pub open spec fn updates(actions: Seq<ActionView>) -> nat {
    actions.filter(|action: ActionView| action is UpdateToLatest).len()
}

/// The change of an undo; `None` for any other action.
pub open spec fn undone_by(action: ActionView) -> Option<ChangeView> {
    match action {
        ActionView::Undo { change } => Some(change),
        _ => None,
    }
}

/// The changes that `actions` undo, in the order in which they do.
pub open spec fn undone(actions: Seq<ActionView>) -> Seq<ChangeView> {
    actions.filter_map(|action: ActionView| undone_by(action))
}

/// The views of a run of events, in the same order.
pub open spec fn event_views(events: Seq<Event>) -> Seq<EventView> {
    events.map_values(|event: Event| event@)
}

/// The views of a run of actions, in the same order.
pub open spec fn action_views(actions: Seq<Action>) -> Seq<ActionView> {
    actions.map_values(|action: Action| action@)
}

/// Once a run has ended no event moves it.
pub proof fn lemma_ended_stays(state: State, events: Seq<EventView>)
    requires
        state.ended(),
    ensures
        state_after(state, events) == state,
        answers(state, events) == Seq::<ActionView>::empty(),
    decreases events.len(),
{
    if events.len() > 0 {
        lemma_ended_stays(state, events.drop_last());
    }
}

/// A run may be reported its events in two parts.
pub proof fn lemma_run_in_parts(state: State, first: Seq<EventView>, second: Seq<EventView>)
    ensures
        state_after(state, first + second) == state_after(state_after(state, first), second),
        answers(state, first + second) == answers(state, first) + answers(
            state_after(state, first),
            second,
        ),
    decreases second.len(),
{
    if second.len() > 0 {
        assert((first + second).drop_last() =~= first + second.drop_last());
        lemma_run_in_parts(state, first, second.drop_last());
    }
}

/// The one event of a run that has not ended is answered by the action of
/// the state that follows.
pub proof fn lemma_one_event(state: State, event: EventView)
    ensures
        state_after(state, seq![event]) == next_state(state, event),
        !state.ended() ==> answers(state, seq![event]) == seq![action_of(next_state(state, event))],
{
    let events = seq![event];
    assert(answers(state, events.drop_last()) =~= Seq::<ActionView>::empty());
    assert(!state.ended() ==> answers(state, events) =~= seq![action_of(next_state(state, event))]);
}

/// The counts of a run of actions are the sums of the counts of its parts,
/// and what it undoes is what its parts undo, one after the other.
pub proof fn lemma_counts_in_parts(first: Seq<ActionView>, second: Seq<ActionView>)
    ensures
        queries(first + second) == queries(first) + queries(second),
        updates(first + second) == updates(first) + updates(second),
        undone(first + second) == undone(first) + undone(second),
    decreases second.len(),
{
    Seq::filter_distributes_over_add(first, second, |action: ActionView| action is QueryStatus);
    Seq::filter_distributes_over_add(first, second, |action: ActionView| action is UpdateToLatest);
    if second.len() > 0 {
        assert((first + second).drop_last() =~= first + second.drop_last());
        lemma_counts_in_parts(first, second.drop_last());
    }
}

/// The counts of a single action.
pub proof fn lemma_counts_of_one(action: ActionView)
    ensures
        queries(seq![action]) == if action is QueryStatus { 1nat } else { 0nat },
        updates(seq![action]) == if action is UpdateToLatest { 1nat } else { 0nat },
        undone(seq![action]) == match undone_by(action) {
            Some(change) => seq![change],
            None => Seq::empty(),
        },
{
    reveal_with_fuel(Seq::filter, 2);
    reveal_with_fuel(Seq::filter_map, 2);
}

/// Runs `reconciler` against a record of events: reports them to it in
/// order until the run has ended or the record is at its end, and returns
/// the reconciler as that leaves it, with every action that it asked for,
/// its first one at the head.
pub fn replay(reconciler: Reconciler, events: Vec<Event>) -> (outcome: (Reconciler, Vec<Action>))
    ensures
        outcome.0@ == state_after(reconciler@, event_views(events@)),
        action_views(outcome.1@) == actions(reconciler@, event_views(events@)),
{
    let ghost start = reconciler@;
    let ghost record = event_views(events@);
    let mut current = reconciler;
    let mut issued: Vec<Action> = Vec::new();
    issued.push(current.action());
    for event in it: events
        invariant
            record == event_views(events@),
            current@ == state_after(start, record.take(it.index() as int)),
            action_views(issued@) == actions(start, record.take(it.index() as int)),
    {
        let ghost earlier = action_views(issued@);
        assert(record.take(it.index() + 1).drop_last() =~= record.take(it.index() as int));
        if !current.has_ended() {
            current = current.step(event);
            issued.push(current.action());
            assert(action_views(issued@) =~= earlier.push(action_of(current@)));
        }
    }
    assert(record.take(record.len() as int) =~= record);
    (current, issued)
}

} // verus!
