//! The decisions of keeping a workspace clean and of updating it.
//!
//! A [`Reconciler`] works by turns. It names the next [`Action`]; the caller
//! performs it and reports how it went as an [`Event`]; [`Reconciler::step`]
//! takes the event and the next action follows. A run ends with
//! [`Action::Finish`] or [`Action::Abort`].
//!
//! Making the workspace clean is a loop without a bound: ask for the status,
//! undo every change it lists, and ask again, until a status lists nothing.
//! An update runs that loop, then asks the client to update, then runs the
//! loop once more, for what the update itself may have left behind.

use vstd::prelude::*;
use crate::change::{change_views, Change, ChangeView};
use crate::document::{read_status, reported_status, StatusOutput};
use crate::failure::{Failure, FailureView};
use crate::invocation::{
    get_status,
    status_command,
    undo,
    undo_command,
    update_command,
    update_latest,
    Invocation,
    InvocationView,
    Operation,
};

verus! {

/// What the caller is asked to do next.
#[derive(Debug, PartialEq, Eq)]
pub enum Action {
    /// Ask the client for the status of the workspace.
    QueryStatus,
    /// Ask the client to revert this change.
    Undo { change: Change },
    /// Ask the client to move the workspace to the latest revision.
    UpdateToLatest,
    /// Nothing more: the workspace is clean, and up to date if that was asked.
    Finish,
    /// Nothing more: the run has failed.
    Abort { failure: Failure },
}

/// What an [`Action`] stands for in contracts.
pub enum ActionView {
    QueryStatus,
    Undo { change: ChangeView },
    UpdateToLatest,
    Finish,
    Abort { failure: FailureView },
}

impl View for Action {
    type V = ActionView;

    open spec fn view(&self) -> ActionView {
        match *self {
            Action::QueryStatus => ActionView::QueryStatus,
            Action::Undo { change } => ActionView::Undo { change: change@ },
            Action::UpdateToLatest => ActionView::UpdateToLatest,
            Action::Finish => ActionView::Finish,
            Action::Abort { failure } => ActionView::Abort { failure: failure@ },
        }
    }
}

/// How the last action went.
#[derive(Debug, PartialEq, Eq)]
pub enum Event {
    /// The status query ran and its output was captured.
    StatusCaptured {
        /// The captured output, as text.
        raw: String,
        /// What the decoder made of `raw`; `None` where `raw` is no status
        /// document.
        document: Option<StatusOutput>,
    },
    /// The undo or the update ran to completion.
    Completed,
    /// The client could not be started, or did not run to completion.
    ToolFailed {
        /// What the system said of the failure.
        detail: String,
    },
}

/// What an [`Event`] stands for in contracts. Of a decoded document only the
/// status that it reports is kept.
pub enum EventView {
    StatusCaptured { raw: Seq<char>, status: Option<Seq<ChangeView>> },
    Completed,
    ToolFailed { detail: Seq<char> },
}

impl View for Event {
    type V = EventView;

    open spec fn view(&self) -> EventView {
        match *self {
            Event::StatusCaptured { raw, document } => EventView::StatusCaptured {
                raw: raw@,
                status: match document {
                    Some(found) => Some(reported_status(found)),
                    None => None,
                },
            },
            Event::Completed => EventView::Completed,
            Event::ToolFailed { detail } => EventView::ToolFailed { detail: detail@ },
        }
    }
}

/// Where a run stands.
pub enum Phase {
    /// The status of the workspace has been asked for.
    Querying,
    /// The undo of `remaining[0]` has been asked for; the rest of `remaining`
    /// follows in order. `remaining` is never empty.
    Undoing { remaining: Seq<ChangeView> },
    /// The update has been asked for.
    Updating,
    /// The run has ended well.
    Clean,
    /// The run has ended with `failure`.
    Failed { failure: FailureView },
}

/// The state of a run, as contracts see it.
pub struct State {
    /// The workspace. It is the same from the first action to the last.
    pub working_dir: Seq<char>,
    /// Whether an update is still to be made once the workspace is clean.
    pub update_due: bool,
    pub phase: Phase,
}

impl State {
    /// Whether the run has ended.
    pub open spec fn ended(self) -> bool {
        self.phase is Clean || self.phase is Failed
    }

    /// Whether the state is well formed: where an undo has been asked for,
    /// there is a change to undo. Every state of a [`Reconciler`] is.
    pub open spec fn wf(self) -> bool {
        self.phase matches Phase::Undoing { remaining } ==> remaining.len() > 0
    }

    /// The state in `phase`, all else unchanged.
    pub open spec fn at(self, phase: Phase) -> State {
        State { phase, ..self }
    }

    /// The state after the client failed at `operation`.
    pub open spec fn failed_at(self, operation: Operation, detail: Seq<char>) -> State {
        self.at(Phase::Failed { failure: FailureView::ToolInvocation { operation, detail } })
    }
}

/// The state in which a run begins: the status has been asked for.
pub open spec fn initial(working_dir: Seq<char>, update_due: bool) -> State {
    State { working_dir, update_due, phase: Phase::Querying }
}

/// The action that is asked of the caller in `state`.
pub open spec fn action_of(state: State) -> ActionView {
    match state.phase {
        Phase::Querying => ActionView::QueryStatus,
        Phase::Undoing { remaining } => ActionView::Undo { change: remaining[0] },
        Phase::Updating => ActionView::UpdateToLatest,
        Phase::Clean => ActionView::Finish,
        Phase::Failed { failure } => ActionView::Abort { failure },
    }
}

/// The state in which `status` leaves a run that had asked for it.
///
/// Pending changes are undone from the first on. A clean workspace ends the
/// run, unless an update is due: then the update comes next, and is due no
/// more.
pub open spec fn after_status(state: State, status: Seq<ChangeView>) -> State {
    if status.len() > 0 {
        state.at(Phase::Undoing { remaining: status })
    } else if state.update_due {
        State { update_due: false, phase: Phase::Updating, ..state }
    } else {
        state.at(Phase::Clean)
    }
}

/// The state that follows `state` on `event`.
///
/// A failure of the client, or a status output that is no document, ends the
/// run at once. An event that is no answer to the action of `state` changes
/// nothing, and neither does any event once the run has ended.
pub open spec fn next_state(state: State, event: EventView) -> State {
    match state.phase {
        Phase::Querying => match event {
            EventView::StatusCaptured { raw, status: Some(status) } => after_status(state, status),
            EventView::StatusCaptured { raw, status: None } => state.at(
                Phase::Failed { failure: FailureView::Decode { raw } },
            ),
            EventView::ToolFailed { detail } => state.failed_at(Operation::Status, detail),
            EventView::Completed => state,
        },
        Phase::Undoing { remaining } => match event {
            EventView::Completed => if remaining.len() > 1 {
                state.at(Phase::Undoing { remaining: remaining.drop_first() })
            } else {
                state.at(Phase::Querying)
            },
            EventView::ToolFailed { detail } => state.failed_at(Operation::Undo, detail),
            EventView::StatusCaptured { .. } => state,
        },
        Phase::Updating => match event {
            EventView::Completed => state.at(Phase::Querying),
            EventView::ToolFailed { detail } => state.failed_at(Operation::Update, detail),
            EventView::StatusCaptured { .. } => state,
        },
        Phase::Clean => state,
        Phase::Failed { .. } => state,
    }
}

/// The command that performs `action` in the workspace at `working_dir`.
/// The two actions that end a run have none.
pub open spec fn command_of(action: ActionView, working_dir: Seq<char>) -> Option<InvocationView> {
    match action {
        ActionView::QueryStatus => Some(status_command(working_dir)),
        ActionView::Undo { change } => Some(undo_command(change.path, working_dir)),
        ActionView::UpdateToLatest => Some(update_command(working_dir)),
        ActionView::Finish => None,
        ActionView::Abort { .. } => None,
    }
}

#[derive(Debug)]
enum Stage {
    Querying,
    Undoing { changes: Vec<Change>, next: usize },
    Updating,
    Clean,
    Failed { failure: Failure },
}

/// A run that makes a workspace clean, or clean and up to date.
#[derive(Debug)]
pub struct Reconciler {
    working_dir: String,
    update_due: bool,
    stage: Stage,
}

impl View for Reconciler {
    type V = State;

    closed spec fn view(&self) -> State {
        State {
            working_dir: self.working_dir@,
            update_due: self.update_due,
            phase: match self.stage {
                Stage::Querying => Phase::Querying,
                Stage::Undoing { changes, next } => Phase::Undoing {
                    remaining: change_views(changes@).skip(next as int),
                },
                Stage::Updating => Phase::Updating,
                Stage::Clean => Phase::Clean,
                Stage::Failed { failure } => Phase::Failed { failure: failure@ },
            },
        }
    }
}

/// Begins a run that makes the workspace at `working_dir` clean.
pub fn ensure_clean(working_dir: &str) -> (reconciler: Reconciler)
    ensures
        reconciler@ == initial(working_dir@, false),
{
    Reconciler { working_dir: working_dir.to_owned(), update_due: false, stage: Stage::Querying }
}

/// Begins a run that makes the workspace at `working_dir` clean, moves it to
/// the latest revision, and makes it clean again.
pub fn update(working_dir: &str) -> (reconciler: Reconciler)
    ensures
        reconciler@ == initial(working_dir@, true),
{
    Reconciler { working_dir: working_dir.to_owned(), update_due: true, stage: Stage::Querying }
}

impl Reconciler {
    #[verifier::type_invariant]
    spec fn undo_in_range(self) -> bool {
        self.stage matches Stage::Undoing { changes, next } ==> next < changes.len()
    }

    /// Whether the run has ended, well or not.
    pub fn has_ended(&self) -> (ended: bool)
        ensures
            ended == self@.ended(),
    {
        match &self.stage {
            Stage::Clean => true,
            Stage::Failed { .. } => true,
            _ => false,
        }
    }

    /// The action that the caller is to perform now.
    pub fn action(&self) -> (action: Action)
        ensures
            self@.wf(),
            action@ == action_of(self@),
    {
        proof {
            use_type_invariant(self);
        }
        match &self.stage {
            Stage::Querying => Action::QueryStatus,
            Stage::Undoing { changes, next } => Action::Undo { change: changes[*next].clone() },
            Stage::Updating => Action::UpdateToLatest,
            Stage::Clean => Action::Finish,
            Stage::Failed { failure } => Action::Abort { failure: failure.clone() },
        }
    }

    /// The command that performs the action of now; `None` once the run has
    /// ended.
    pub fn invocation(&self) -> (invocation: Option<Invocation>)
        ensures
            match invocation {
                Some(command) => command_of(action_of(self@), self@.working_dir) == Some(command@),
                None => command_of(action_of(self@), self@.working_dir) is None,
            },
            invocation is None <==> self@.ended(),
    {
        proof {
            use_type_invariant(self);
        }
        match &self.stage {
            Stage::Querying => Some(get_status(self.working_dir.as_str())),
            Stage::Undoing { changes, next } => Some(
                undo(&changes[*next], self.working_dir.as_str()),
            ),
            Stage::Updating => Some(update_latest(self.working_dir.as_str())),
            Stage::Clean => None,
            Stage::Failed { .. } => None,
        }
    }

    /// The changes that are still to be undone before the next status query,
    /// in the order in which they will be; none unless an undo is the action
    /// of now.
    pub fn pending(&self) -> (changes: Vec<Change>)
        ensures
            change_views(changes@) == match self@.phase {
                Phase::Undoing { remaining } => remaining,
                _ => Seq::empty(),
            },
    {
        proof {
            use_type_invariant(self);
        }
        let mut pending: Vec<Change> = Vec::new();
        if let Stage::Undoing { changes, next } = &self.stage {
            let mut i: usize = *next;
            while i < changes.len()
                invariant
                    *next <= i <= changes.len(),
                    pending.len() == i - *next,
                    forall|k: int| 0 <= k < pending.len() ==> pending[k] == changes[*next + k],
                decreases changes.len() - i,
            {
                pending.push(changes[i].clone());
                i += 1;
            }
        }
        pending
    }

    /// Takes the report of how the action of now went, and moves on.
    ///
    /// A report of failure ends the run. A report that answers another
    /// action than the one of now changes nothing, and nothing changes a run
    /// that has ended.
    pub fn step(self, event: Event) -> (next: Reconciler)
        ensures
            next@ == next_state(self@, event@),
            next@.working_dir == self@.working_dir,
            next@.wf(),
    {
        proof {
            use_type_invariant(&self);
        }
        let Reconciler { working_dir, update_due, stage } = self;
        match stage {
            Stage::Querying => match event {
                Event::StatusCaptured { raw, document } => match read_status(raw, document) {
                    Ok(status) => {
                        if !status.is_clean() {
                            assert(status@.skip(0) =~= status@);
                            Reconciler {
                                working_dir,
                                update_due,
                                stage: Stage::Undoing { changes: status.changes, next: 0 },
                            }
                        } else if update_due {
                            Reconciler { working_dir, update_due: false, stage: Stage::Updating }
                        } else {
                            Reconciler { working_dir, update_due, stage: Stage::Clean }
                        }
                    },
                    Err(failure) => Reconciler {
                        working_dir,
                        update_due,
                        stage: Stage::Failed { failure },
                    },
                },
                Event::ToolFailed { detail } => Reconciler {
                    working_dir,
                    update_due,
                    stage: Stage::Failed {
                        failure: Failure::ToolInvocation { operation: Operation::Status, detail },
                    },
                },
                Event::Completed => Reconciler { working_dir, update_due, stage: Stage::Querying },
            },
            Stage::Undoing { changes, next } => match event {
                Event::Completed => {
                    if next + 1 < changes.len() {
                        assert(change_views(changes@).skip(next + 1) =~= change_views(
                            changes@,
                        ).skip(next as int).drop_first());
                        Reconciler {
                            working_dir,
                            update_due,
                            stage: Stage::Undoing { changes, next: next + 1 },
                        }
                    } else {
                        Reconciler { working_dir, update_due, stage: Stage::Querying }
                    }
                },
                Event::ToolFailed { detail } => Reconciler {
                    working_dir,
                    update_due,
                    stage: Stage::Failed {
                        failure: Failure::ToolInvocation { operation: Operation::Undo, detail },
                    },
                },
                Event::StatusCaptured { .. } => Reconciler {
                    working_dir,
                    update_due,
                    stage: Stage::Undoing { changes, next },
                },
            },
            Stage::Updating => match event {
                Event::Completed => Reconciler { working_dir, update_due, stage: Stage::Querying },
                Event::ToolFailed { detail } => Reconciler {
                    working_dir,
                    update_due,
                    stage: Stage::Failed {
                        failure: Failure::ToolInvocation { operation: Operation::Update, detail },
                    },
                },
                Event::StatusCaptured { .. } => Reconciler {
                    working_dir,
                    update_due,
                    stage: Stage::Updating,
                },
            },
            Stage::Clean => Reconciler { working_dir, update_due, stage: Stage::Clean },
            Stage::Failed { failure } => Reconciler {
                working_dir,
                update_due,
                stage: Stage::Failed { failure },
            },
        }
    }
}

} // verus!
