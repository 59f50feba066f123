//! What holds of every run.
//!
//! Each law is stated of [`actions`] and [`state_after`], which say what
//! [`crate::run::replay`], and with it any caller that reports events to
//! [`crate::reconcile::Reconciler::step`] one by one, makes of a record of
//! events. `more` stands throughout for whatever may be reported after the
//! events that a law speaks of.

use vstd::prelude::*;
use crate::change::ChangeView;
use crate::document::{lacks_entries, StatusOutput};
use crate::failure::FailureView;
use crate::invocation::Operation;
use crate::reconcile::{
    action_of,
    after_status,
    initial,
    next_state,
    ActionView,
    Event,
    EventView,
    Phase,
    State,
};
use crate::rounds::{
    all_dirty,
    completions,
    converging,
    lemma_counts_of_rounds,
    lemma_counts_of_undos,
    lemma_dirty_round,
    lemma_dirty_rounds,
    reported,
    reported_count,
    round_actions,
    round_events,
    rounds_actions,
    rounds_events,
    undos,
    Round,
};
use crate::run::{
    actions,
    answers,
    lemma_counts_in_parts,
    lemma_counts_of_one,
    lemma_ended_stays,
    lemma_one_event,
    lemma_run_in_parts,
    queries,
    state_after,
    undone,
    updates,
};

verus! {

/// The report of a status query that found the workspace clean.
pub open spec fn clean_status(raw: Seq<char>) -> EventView {
    EventView::StatusCaptured { raw, status: Some(Seq::empty()) }
}

/// The failure that `event` means to a run in `state`, if it means one: the
/// client failed at what the run had asked of it, or the output of the
/// status query that the run had asked for is no document.
pub open spec fn failure_in(state: State, event: EventView) -> Option<FailureView> {
    match (state.phase, event) {
        (Phase::Querying, EventView::ToolFailed { detail }) => Some(
            FailureView::ToolInvocation { operation: Operation::Status, detail },
        ),
        (Phase::Querying, EventView::StatusCaptured { raw, status: None }) => Some(
            FailureView::Decode { raw },
        ),
        (Phase::Undoing { .. }, EventView::ToolFailed { detail }) => Some(
            FailureView::ToolInvocation { operation: Operation::Undo, detail },
        ),
        (Phase::Updating, EventView::ToolFailed { detail }) => Some(
            FailureView::ToolInvocation { operation: Operation::Update, detail },
        ),
        _ => None,
    }
}

/// A status document without change entries is the report of a clean
/// workspace, whether its collection is missing or empty, and whatever the
/// captured text.
pub proof fn law_document_without_entries_reports_clean(raw: String, document: StatusOutput)
    requires
        lacks_entries(document),
    ensures
        (Event::StatusCaptured { raw, document: Some(document) })@ == clean_status(raw@),
{
    let event = Event::StatusCaptured { raw, document: Some(document) };
    assert(event@->status->0 =~= Seq::<ChangeView>::empty());
}

/// A run stays with the workspace that it began with, whatever is reported
/// to it.
pub proof fn law_working_dir_is_kept(state: State, events: Seq<EventView>)
    ensures
        state_after(state, events).working_dir == state.working_dir,
    decreases events.len(),
{
    if events.len() > 0 {
        law_working_dir_is_kept(state, events.drop_last());
    }
}

/// Rounds that lead to a clean workspace are answered round by round, and then
/// by what a clean workspace calls for: the update if one is due, else the
/// end of the run.
proof fn lemma_converging_rounds(state: State, rounds: Seq<Round>)
    requires
        state.phase is Querying,
        converging(rounds),
    ensures
        state_after(state, rounds_events(rounds)) == after_status(state, Seq::empty()),
        actions(state, rounds_events(rounds)) == rounds_actions(rounds) + seq![
            action_of(after_status(state, Seq::empty())),
        ],
{
    let earlier = rounds.drop_last();
    let last = rounds.last();
    let found = EventView::StatusCaptured { raw: last.raw, status: Some(last.status) };
    lemma_dirty_rounds(state, earlier);
    lemma_run_in_parts(state, rounds_events(earlier), round_events(last));
    lemma_one_event(state, found);
}

/// Making a clean workspace clean takes one status query and no undo, and
/// ends well.
pub proof fn law_clean_workspace_is_left_alone(
    working_dir: Seq<char>,
    raw: Seq<char>,
    more: Seq<EventView>,
)
    ensures
        ({
            let events = seq![clean_status(raw)] + more;
            &&& state_after(initial(working_dir, false), events).phase is Clean
            &&& actions(initial(working_dir, false), events) == seq![
                ActionView::QueryStatus,
                ActionView::Finish,
            ]
            &&& queries(actions(initial(working_dir, false), events)) == 1
            &&& undone(actions(initial(working_dir, false), events)).len() == 0
        }),
{
    let rounds = seq![Round { raw, status: Seq::empty() }];
    assert(rounds_events(rounds.drop_last()) =~= Seq::<EventView>::empty());
    assert(rounds_actions(rounds.drop_last()) =~= Seq::<ActionView>::empty());
    assert(reported_count(rounds.drop_last()) == 0);
    law_convergence(working_dir, rounds, more);
}

/// Making a workspace clean converges with the workspace: where the status
/// queries find pending changes until one of them finds none, the run asks
/// for exactly those queries, undoes every reported change once, and ends
/// well.
pub proof fn law_convergence(working_dir: Seq<char>, rounds: Seq<Round>, more: Seq<EventView>)
    requires
        converging(rounds),
    ensures
        ({
            let events = rounds_events(rounds) + more;
            &&& state_after(initial(working_dir, false), events).phase is Clean
            &&& actions(initial(working_dir, false), events) == rounds_actions(rounds) + seq![
                ActionView::Finish,
            ]
            &&& queries(actions(initial(working_dir, false), events)) == rounds.len()
            &&& undone(actions(initial(working_dir, false), events)).len() == reported_count(
                rounds,
            )
            &&& updates(actions(initial(working_dir, false), events)) == 0
        }),
{
    let start = initial(working_dir, false);
    lemma_converging_rounds(start, rounds);
    lemma_run_in_parts(start, rounds_events(rounds), more);
    lemma_ended_stays(state_after(start, rounds_events(rounds)), more);
    lemma_counts_of_rounds(rounds);
    lemma_counts_of_one(ActionView::Finish);
    lemma_counts_in_parts(rounds_actions(rounds), seq![ActionView::Finish]);
}

/// Changes are undone in the order in which the status lists them, each one
/// once: a status query that finds pending changes is answered by the undo
/// of its first change, each completed undo by the undo of the next change,
/// and the last one by a new status query.
pub proof fn law_undos_keep_the_order_of_the_status(state: State, round: Round)
    requires
        state.phase is Querying,
        round.status.len() > 0,
    ensures
        answers(state, round_events(round)) == undos(round.status) + seq![ActionView::QueryStatus],
        undone(answers(state, round_events(round))) == round.status,
        state_after(state, round_events(round)) == state,
{
    lemma_dirty_round(state, round);
    lemma_counts_of_undos(round.status);
    lemma_counts_of_one(ActionView::QueryStatus);
    lemma_counts_in_parts(undos(round.status), seq![ActionView::QueryStatus]);
}

/// Over a whole run that makes a workspace clean, the changes are undone in
/// the order in which the status queries report them.
pub proof fn law_order_preservation(
    working_dir: Seq<char>,
    rounds: Seq<Round>,
    more: Seq<EventView>,
)
    requires
        converging(rounds),
    ensures
        undone(actions(initial(working_dir, false), rounds_events(rounds) + more)) == reported(
            rounds,
        ),
{
    law_convergence(working_dir, rounds, more);
    lemma_counts_of_rounds(rounds);
    lemma_counts_of_one(ActionView::Finish);
    lemma_counts_in_parts(rounds_actions(rounds), seq![ActionView::Finish]);
}

/// The cleaning loop has no bound: as long as every status query finds
/// pending changes the run undoes them and asks again, however many rounds
/// have gone by, and it keeps nothing of the rounds that have.
pub proof fn law_cleaning_goes_on_while_changes_are_found(
    working_dir: Seq<char>,
    update_due: bool,
    rounds: Seq<Round>,
)
    requires
        all_dirty(rounds),
    ensures
        ({
            let start = initial(working_dir, update_due);
            &&& state_after(start, rounds_events(rounds)) == start
            &&& actions(start, rounds_events(rounds)) == rounds_actions(rounds) + seq![
                ActionView::QueryStatus,
            ]
            &&& queries(actions(start, rounds_events(rounds))) == rounds.len() + 1
            &&& undone(actions(start, rounds_events(rounds))) == reported(rounds)
        }),
{
    lemma_dirty_rounds(initial(working_dir, update_due), rounds);
    lemma_counts_of_rounds(rounds);
    lemma_counts_of_one(ActionView::QueryStatus);
    lemma_counts_in_parts(rounds_actions(rounds), seq![ActionView::QueryStatus]);
}

/// An update is the cleaning loop, the update, and the cleaning loop again:
/// where the status queries before the update lead to a clean workspace, the
/// update runs to completion, and the status queries after it lead to a
/// clean workspace again, the run asks for the first rounds, then for the
/// update, then for the second rounds, and ends well.
pub proof fn law_update_cleans_before_and_after(
    working_dir: Seq<char>,
    before: Seq<Round>,
    after: Seq<Round>,
    more: Seq<EventView>,
)
    requires
        converging(before),
        converging(after),
    ensures
        ({
            let events = rounds_events(before) + completions(1) + rounds_events(after) + more;
            &&& state_after(initial(working_dir, true), events).phase is Clean
            &&& actions(initial(working_dir, true), events) == rounds_actions(before) + seq![
                ActionView::UpdateToLatest,
            ] + rounds_actions(after) + seq![ActionView::Finish]
            &&& queries(actions(initial(working_dir, true), events)) == before.len() + after.len()
            &&& updates(actions(initial(working_dir, true), events)) == 1
            &&& undone(actions(initial(working_dir, true), events)) == reported(before) + reported(
                after,
            )
        }),
{
    let start = initial(working_dir, true);
    let again = initial(working_dir, false);
    let updating = after_status(start, Seq::empty());
    let first = rounds_events(before);
    let second = rounds_events(after);
    let update = seq![ActionView::UpdateToLatest];
    let finish = seq![ActionView::Finish];
    lemma_converging_rounds(start, before);
    lemma_converging_rounds(again, after);
    assert(completions(1) =~= seq![EventView::Completed]);
    lemma_one_event(updating, EventView::Completed);
    lemma_run_in_parts(start, first, completions(1) + second + more);
    lemma_run_in_parts(updating, completions(1), second + more);
    lemma_run_in_parts(again, second, more);
    lemma_ended_stays(state_after(again, second), more);
    assert(first + completions(1) + second + more =~= first + (completions(1) + second + more));
    assert(completions(1) + second + more =~= completions(1) + (second + more));
    let run = actions(start, first + completions(1) + second + more);
    assert(run =~= rounds_actions(before) + update + rounds_actions(after) + finish);
    lemma_counts_of_rounds(before);
    lemma_counts_of_rounds(after);
    lemma_counts_of_one(ActionView::UpdateToLatest);
    lemma_counts_of_one(ActionView::Finish);
    lemma_counts_in_parts(rounds_actions(before), update);
    lemma_counts_in_parts(rounds_actions(before) + update, rounds_actions(after));
    lemma_counts_in_parts(rounds_actions(before) + update + rounds_actions(after), finish);
}

/// The update of a clean workspace that the update itself leaves with
/// pending changes: the first status query finds none, the update runs, the
/// second query finds `dirty`, each change of `dirty` is undone, and the
/// third query finds none. That makes three status queries, one update and
/// one undo for each change of `dirty`, in this order.
pub proof fn law_update_absorbs_what_it_leaves(
    working_dir: Seq<char>,
    first: Seq<char>,
    second: Seq<char>,
    third: Seq<char>,
    dirty: Seq<ChangeView>,
    more: Seq<EventView>,
)
    requires
        dirty.len() > 0,
    ensures
        ({
            let events = seq![clean_status(first), EventView::Completed] + round_events(
                Round { raw: second, status: dirty },
            ) + seq![clean_status(third)] + more;
            &&& state_after(initial(working_dir, true), events).phase is Clean
            &&& actions(initial(working_dir, true), events) == seq![
                ActionView::QueryStatus,
                ActionView::UpdateToLatest,
                ActionView::QueryStatus,
            ] + undos(dirty) + seq![ActionView::QueryStatus, ActionView::Finish]
            &&& queries(actions(initial(working_dir, true), events)) == 3
            &&& updates(actions(initial(working_dir, true), events)) == 1
            &&& undone(actions(initial(working_dir, true), events)) == dirty
        }),
{
    let none = Seq::<ChangeView>::empty();
    let before = seq![Round { raw: first, status: none }];
    let after = seq![Round { raw: second, status: dirty }, Round { raw: third, status: none }];
    reveal_with_fuel(rounds_events, 3);
    reveal_with_fuel(rounds_actions, 3);
    reveal_with_fuel(reported, 3);
    assert(seq![clean_status(first), EventView::Completed] + round_events(
        Round { raw: second, status: dirty },
    ) + seq![clean_status(third)] + more =~= rounds_events(before) + completions(1)
        + rounds_events(after) + more);
    law_update_cleans_before_and_after(working_dir, before, after, more);
}

/// A failure ends the run at once: the event that reports it is answered by
/// the abort that carries the failure, and nothing that is reported after it
/// is answered at all.
pub proof fn law_failure_ends_the_run(state: State, event: EventView, more: Seq<EventView>)
    requires
        !state.ended(),
        failure_in(state, event) is Some,
    ensures
        state_after(state, seq![event] + more) == state.at(
            Phase::Failed { failure: failure_in(state, event)->0 },
        ),
        answers(state, seq![event] + more) == seq![
            ActionView::Abort { failure: failure_in(state, event)->0 },
        ],
{
    lemma_one_event(state, event);
    lemma_run_in_parts(state, seq![event], more);
    lemma_ended_stays(next_state(state, event), more);
}

/// A status query that fails after a round of undos ends the run there: the
/// run has asked for the first query, for the undos of what it found, and
/// for the second query, and it asks for no undo and no query more.
pub proof fn law_failed_query_stops_the_loop(
    working_dir: Seq<char>,
    update_due: bool,
    first: Round,
    event: EventView,
    more: Seq<EventView>,
)
    requires
        first.status.len() > 0,
        failure_in(initial(working_dir, update_due), event) is Some,
    ensures
        ({
            let events = round_events(first) + seq![event] + more;
            let failure = failure_in(initial(working_dir, update_due), event)->0;
            &&& state_after(initial(working_dir, update_due), events).phase == (Phase::Failed {
                failure,
            })
            &&& actions(initial(working_dir, update_due), events) == seq![ActionView::QueryStatus]
                + undos(first.status) + seq![ActionView::QueryStatus, ActionView::Abort { failure }]
            &&& queries(actions(initial(working_dir, update_due), events)) == 2
            &&& undone(actions(initial(working_dir, update_due), events)) == first.status
        }),
{
    let start = initial(working_dir, update_due);
    let failure = failure_in(start, event)->0;
    let query = seq![ActionView::QueryStatus];
    let abort = seq![ActionView::Abort { failure }];
    lemma_dirty_round(start, first);
    law_failure_ends_the_run(start, event, more);
    lemma_run_in_parts(start, round_events(first), seq![event] + more);
    assert(round_events(first) + seq![event] + more =~= round_events(first) + (seq![event]
        + more));
    let run = actions(start, round_events(first) + seq![event] + more);
    assert(run =~= query + undos(first.status) + query + abort);
    lemma_counts_of_one(ActionView::QueryStatus);
    lemma_counts_of_one(ActionView::Abort { failure });
    lemma_counts_of_undos(first.status);
    lemma_counts_in_parts(query, undos(first.status));
    lemma_counts_in_parts(query + undos(first.status), query);
    lemma_counts_in_parts(query + undos(first.status) + query, abort);
}

} // verus!
