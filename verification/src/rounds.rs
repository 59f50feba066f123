//! Rounds of the cleaning loop, and what a run makes of them.
//!
//! A round is a status query with the undos that it calls for. This module
//! describes runs whose events come in whole rounds, and proves what actions
//! such events are answered by.

use vstd::prelude::*;
use crate::change::ChangeView;
use crate::reconcile::{action_of, next_state, ActionView, EventView, Phase, State};
use crate::run::{
    actions,
    answers,
    lemma_counts_in_parts,
    lemma_counts_of_one,
    lemma_one_event,
    lemma_run_in_parts,
    queries,
    state_after,
    undone,
    updates,
};

verus! {

/// One round of the cleaning loop as its caller lives it: a status query
/// whose output `raw` decodes to `status`, then one undo for each change of
/// `status`, each of which runs to completion.
pub struct Round {
    pub raw: Seq<char>,
    pub status: Seq<ChangeView>,
}

/// `count` reports of an undo, or of an update, that ran to completion.
pub open spec fn completions(count: nat) -> Seq<EventView> {
    Seq::new(count, |i: int| EventView::Completed)
}

/// The events of a round, in order.
pub open spec fn round_events(round: Round) -> Seq<EventView> {
    seq![EventView::StatusCaptured { raw: round.raw, status: Some(round.status) }] + completions(
        round.status.len(),
    )
}

/// The events of some rounds, in order.
pub open spec fn rounds_events(rounds: Seq<Round>) -> Seq<EventView>
    decreases rounds.len(),
{
    if rounds.len() == 0 {
        Seq::empty()
    } else {
        rounds_events(rounds.drop_last()) + round_events(rounds.last())
    }
}

/// One undo for each change of `status`, in the order of `status`.
pub open spec fn undos(status: Seq<ChangeView>) -> Seq<ActionView> {
    status.map_values(|change: ChangeView| ActionView::Undo { change })
}

/// The actions of a round: the status query, then the undos.
pub open spec fn round_actions(round: Round) -> Seq<ActionView> {
    seq![ActionView::QueryStatus] + undos(round.status)
}

/// The actions of some rounds, in order.
pub open spec fn rounds_actions(rounds: Seq<Round>) -> Seq<ActionView>
    decreases rounds.len(),
{
    if rounds.len() == 0 {
        Seq::empty()
    } else {
        rounds_actions(rounds.drop_last()) + round_actions(rounds.last())
    }
}

/// Every change that the status queries of some rounds report, in order.
pub open spec fn reported(rounds: Seq<Round>) -> Seq<ChangeView>
    decreases rounds.len(),
{
    if rounds.len() == 0 {
        Seq::empty()
    } else {
        reported(rounds.drop_last()) + rounds.last().status
    }
}

/// How many changes the status queries of some rounds report, all told.
pub open spec fn reported_count(rounds: Seq<Round>) -> nat
    decreases rounds.len(),
{
    if rounds.len() == 0 {
        0
    } else {
        reported_count(rounds.drop_last()) + rounds.last().status.len()
    }
}

/// Whether every one of the rounds finds a pending change.
pub open spec fn all_dirty(rounds: Seq<Round>) -> bool {
    forall|k: int| 0 <= k < rounds.len() ==> (#[trigger] rounds[k]).status.len() > 0
}

/// Whether the rounds lead to a clean workspace: the last of them finds no
/// pending change, and each one before it finds some.
pub open spec fn converging(rounds: Seq<Round>) -> bool {
    &&& rounds.len() > 0
    &&& all_dirty(rounds.drop_last())
    &&& rounds.last().status.len() == 0
}

/// While changes remain, each completed undo is answered by the undo of the
/// next change.
proof fn lemma_undos_one_by_one(state: State, status: Seq<ChangeView>, done: nat)
    requires
        done < status.len(),
    ensures
        state_after(state.at(Phase::Undoing { remaining: status }), completions(done)) == state.at(
            Phase::Undoing { remaining: status.skip(done as int) },
        ),
        answers(state.at(Phase::Undoing { remaining: status }), completions(done)) == undos(
            status,
        ).subrange(1, done as int + 1),
    decreases done,
{
    if done == 0 {
        assert(status.skip(0) =~= status);
    } else {
        let earlier = (done - 1) as nat;
        lemma_undos_one_by_one(state, status, earlier);
        assert(completions(done).drop_last() =~= completions(earlier));
        assert(status.skip(earlier as int).drop_first() =~= status.skip(done as int));
    }
}

/// A round that finds pending changes undoes them in the order of the status
/// and comes back to the status query, in the state in which it began.
pub proof fn lemma_dirty_round(state: State, round: Round)
    requires
        state.phase is Querying,
        round.status.len() > 0,
    ensures
        state_after(state, round_events(round)) == state,
        answers(state, round_events(round)) == undos(round.status) + seq![ActionView::QueryStatus],
{
    let status = round.status;
    let found = EventView::StatusCaptured { raw: round.raw, status: Some(status) };
    let all = completions(status.len());
    let but_one = (status.len() - 1) as nat;
    lemma_one_event(state, found);
    lemma_run_in_parts(state, seq![found], all);
    lemma_undos_one_by_one(state, status, but_one);
    assert(all.drop_last() =~= completions(but_one));
}

/// Rounds that all find pending changes are answered round by round, and leave
/// the run at a status query, in the state in which it began.
pub proof fn lemma_dirty_rounds(state: State, rounds: Seq<Round>)
    requires
        state.phase is Querying,
        all_dirty(rounds),
    ensures
        state_after(state, rounds_events(rounds)) == state,
        actions(state, rounds_events(rounds)) == rounds_actions(rounds) + seq![
            ActionView::QueryStatus,
        ],
    decreases rounds.len(),
{
    if rounds.len() > 0 {
        let earlier = rounds.drop_last();
        let again = seq![ActionView::QueryStatus];
        assert(all_dirty(earlier));
        lemma_dirty_rounds(state, earlier);
        lemma_run_in_parts(state, rounds_events(earlier), round_events(rounds.last()));
        lemma_dirty_round(state, rounds.last());
        assert((rounds_actions(earlier) + again) + (undos(rounds.last().status) + again)
            =~= rounds_actions(earlier) + round_actions(rounds.last()) + again);
    }
}

/// The undos of a status are no queries and no updates, and undo the
/// changes of the status in its order.
pub proof fn lemma_counts_of_undos(status: Seq<ChangeView>)
    ensures
        queries(undos(status)) == 0,
        updates(undos(status)) == 0,
        undone(undos(status)) == status,
    decreases status.len(),
{
    if status.len() == 0 {
        lemma_counts_in_parts(undos(status), undos(status));
    } else {
        let last = ActionView::Undo { change: status.last() };
        lemma_counts_of_undos(status.drop_last());
        lemma_counts_of_one(last);
        lemma_counts_in_parts(undos(status.drop_last()), seq![last]);
        assert(undos(status) =~= undos(status.drop_last()) + seq![last]);
    }
}

/// The actions of some rounds hold one query for each round and no update,
/// and undo every reported change in the order of the reports.
pub proof fn lemma_counts_of_rounds(rounds: Seq<Round>)
    ensures
        queries(rounds_actions(rounds)) == rounds.len(),
        updates(rounds_actions(rounds)) == 0,
        undone(rounds_actions(rounds)) == reported(rounds),
        reported(rounds).len() == reported_count(rounds),
    decreases rounds.len(),
{
    if rounds.len() == 0 {
        lemma_counts_in_parts(rounds_actions(rounds), rounds_actions(rounds));
    } else {
        let query = seq![ActionView::QueryStatus];
        let status = rounds.last().status;
        lemma_counts_of_rounds(rounds.drop_last());
        lemma_counts_of_one(ActionView::QueryStatus);
        lemma_counts_of_undos(status);
        lemma_counts_in_parts(query, undos(status));
        lemma_counts_in_parts(rounds_actions(rounds.drop_last()), round_actions(rounds.last()));
    }
}

} // verus!
