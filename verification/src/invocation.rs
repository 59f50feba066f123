//! The command lines by which the source-control client is asked to work.

use vstd::prelude::*;
use crate::change::Change;

verus! {

/// An operation of the source-control client.
#[derive(Debug, Clone, Copy, PartialEq, Eq, Structural)]
pub enum Operation {
    /// List the pending changes.
    Status,
    /// Revert one pending change.
    Undo,
    /// Move the workspace to the latest revision.
    Update,
}

/// The word by which the client knows an operation.
pub open spec fn operation_name(operation: Operation) -> Seq<char> {
    match operation {
        Operation::Status => "status"@,
        Operation::Undo => "undo"@,
        Operation::Update => "update"@,
    }
}

impl Operation {
    /// The word by which the client knows the operation.
    pub fn name(&self) -> (word: &'static str)
        ensures
            word@ == operation_name(*self),
    {
        match self {
            Operation::Status => "status",
            Operation::Undo => "undo",
            Operation::Update => "update",
        }
    }
}

/// The name of the client's program.
pub open spec fn client() -> Seq<char> {
    "cm"@
}

/// The name of the client's program.
pub fn client_name() -> (name: &'static str)
    ensures
        name@ == client(),
{
    "cm"
}

/// One run of the source-control client: the program, its arguments in
/// order, and the directory in which it runs.
#[derive(Debug, PartialEq, Eq)]
pub struct Invocation {
    pub program: String,
    pub arguments: Vec<String>,
    pub working_dir: String,
}

/// What an [`Invocation`] stands for in contracts.
pub struct InvocationView {
    pub program: Seq<char>,
    pub arguments: Seq<Seq<char>>,
    pub working_dir: Seq<char>,
}

/// The texts of some strings, in the same order.
pub open spec fn texts(strings: Seq<String>) -> Seq<Seq<char>> {
    strings.map_values(|string: String| string@)
}

impl View for Invocation {
    type V = InvocationView;

    open spec fn view(&self) -> InvocationView {
        InvocationView {
            program: self.program@,
            arguments: texts(self.arguments@),
            working_dir: self.working_dir@,
        }
    }
}

/// The status query: full paths, and the output as a structured document.
pub open spec fn status_command(working_dir: Seq<char>) -> InvocationView {
    InvocationView {
        program: client(),
        arguments: seq![operation_name(Operation::Status), "--xml"@, "--fullpath"@],
        working_dir,
    }
}

/// The undo of the change at `path`.
pub open spec fn undo_command(path: Seq<char>, working_dir: Seq<char>) -> InvocationView {
    InvocationView {
        program: client(),
        arguments: seq![operation_name(Operation::Undo), path],
        working_dir,
    }
}

/// The update: to the latest revision, overwriting changed files and
/// fetching damaged content again.
pub open spec fn update_command(working_dir: Seq<char>) -> InvocationView {
    InvocationView {
        program: client(),
        arguments: seq![operation_name(Operation::Update), "--last"@, "--override"@, "--forced"@],
        working_dir,
    }
}

fn client_in(operation: Operation, working_dir: &str) -> (invocation: Invocation)
    ensures
        invocation@ == (InvocationView {
            program: client(),
            arguments: seq![operation_name(operation)],
            working_dir: working_dir@,
        }),
{
    let mut arguments: Vec<String> = Vec::new();
    arguments.push(operation.name().to_owned());
    let invocation = Invocation {
        program: client_name().to_owned(),
        arguments,
        working_dir: working_dir.to_owned(),
    };
    assert(invocation@.arguments =~= seq![operation_name(operation)]);
    invocation
}

impl Invocation {
    fn with(self, argument: &str) -> (invocation: Invocation)
        ensures
            invocation@ == (InvocationView {
                arguments: self@.arguments.push(argument@),
                ..self@
            }),
    {
        let Invocation { program, mut arguments, working_dir } = self;
        arguments.push(argument.to_owned());
        let invocation = Invocation { program, arguments, working_dir };
        assert(invocation@.arguments =~= self@.arguments.push(argument@));
        invocation
    }
}

/// The command that lists the pending changes of the workspace at
/// `working_dir`.
pub fn get_status(working_dir: &str) -> (invocation: Invocation)
    ensures
        invocation@ == status_command(working_dir@),
{
    let invocation = client_in(Operation::Status, working_dir).with("--xml").with("--fullpath");
    assert(invocation@.arguments =~= status_command(working_dir@).arguments);
    invocation
}

/// The command that reverts `change` in the workspace at `working_dir`.
pub fn undo(change: &Change, working_dir: &str) -> (invocation: Invocation)
    ensures
        invocation@ == undo_command(change@.path, working_dir@),
{
    let invocation = client_in(Operation::Undo, working_dir).with(change.path.as_str());
    assert(invocation@.arguments =~= undo_command(change@.path, working_dir@).arguments);
    invocation
}

/// The command that moves the workspace at `working_dir` to the latest
/// revision.
pub fn update_latest(working_dir: &str) -> (invocation: Invocation)
    ensures
        invocation@ == update_command(working_dir@),
{
    let invocation = client_in(Operation::Update, working_dir).with("--last").with(
        "--override",
    ).with("--forced");
    assert(invocation@.arguments =~= update_command(working_dir@).arguments);
    invocation
}

} // verus!
