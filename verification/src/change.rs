//! Pending changes of a workspace, as the source-control client reports them.

use vstd::prelude::*;
use vstd::string::*;

verus! {

/// One difference between the workspace and its last clean state.
///
/// A change lives only as a member of the [`Status`] that reported it.
#[derive(Debug, PartialEq, Eq)]
pub struct Change {
    /// Path of the changed file, absolute or relative to the workspace.
    pub path: String,
    /// Size of the file as the client prints it. Shown to people, never parsed.
    pub size: String,
}

/// What a [`Change`] stands for in contracts.
pub struct ChangeView {
    pub path: Seq<char>,
    pub size: Seq<char>,
}

impl View for Change {
    type V = ChangeView;

    open spec fn view(&self) -> ChangeView {
        ChangeView { path: self.path@, size: self.size@ }
    }
}

/// The views of some changes, in the same order.
pub open spec fn change_views(changes: Seq<Change>) -> Seq<ChangeView> {
    changes.map_values(|change: Change| change@)
}

/// The line that describes a change to a reader: the path between backquotes,
/// then the printed size.
pub open spec fn description(change: ChangeView) -> Seq<char> {
    "File `"@ + change.path + "` of size: "@ + change.size
}

impl Clone for Change {
    fn clone(&self) -> (copy: Self)
        ensures
            copy == *self,
    {
        Change { path: self.path.clone(), size: self.size.clone() }
    }
}

impl Change {
    /// Describes the change in one line.
    pub fn to_string(&self) -> (text: String)
        ensures
            text@ == description(self@),
    {
        let mut text = "File `".to_owned();
        text.append(self.path.as_str());
        text.append("` of size: ");
        text.append(self.size.as_str());
        text
    }
}

/// The pending changes of the workspace at one instant, in the order in which
/// the client listed them. An empty status means that the workspace is clean.
#[derive(Debug, PartialEq, Eq)]
pub struct Status {
    pub changes: Vec<Change>,
}

impl View for Status {
    type V = Seq<ChangeView>;

    open spec fn view(&self) -> Seq<ChangeView> {
        change_views(self.changes@)
    }
}

impl Status {
    /// Whether the workspace has no pending change.
    pub fn is_clean(&self) -> (clean: bool)
        ensures
            clean == (self@.len() == 0),
    {
        self.changes.len() == 0
    }
}

} // verus!
