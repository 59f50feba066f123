//! The status document of the source-control client, and how it is read.
//!
//! The client prints its status as a structured document. A decoder turns
//! the text into a [`StatusOutput`], which keeps the shape of the document:
//! every element of it may be missing. [`read_status`] settles what a missing
//! element means and what becomes of a text that is no status document.

use vstd::prelude::*;
use crate::change::{Change, ChangeView, Status};
use crate::failure::{Failure, FailureView};

verus! {

/// One change entry of a status document.
#[derive(Debug, PartialEq, Eq)]
pub struct ChangeRecord {
    /// The entry's path element, if it has one.
    pub path: Option<String>,
    /// The entry's printable size element, if it has one.
    pub size: Option<String>,
}

/// The collection element of a status document.
#[derive(Debug, PartialEq, Eq)]
pub struct Changes {
    /// The change entries in document order; `None` if the collection holds
    /// no entry element at all.
    pub changes: Option<Vec<ChangeRecord>>,
}

/// A status document.
#[derive(Debug, PartialEq, Eq)]
pub struct StatusOutput {
    /// The collection of change entries; `None` if the document has none.
    pub changes: Option<Changes>,
}

/// The text of an element, or the empty text where the element is missing.
pub open spec fn text_or_empty(element: Option<String>) -> Seq<char> {
    match element {
        Some(text) => text@,
        None => Seq::empty(),
    }
}

/// The change that an entry reports.
pub open spec fn reported_change(record: ChangeRecord) -> ChangeView {
    ChangeView { path: text_or_empty(record.path), size: text_or_empty(record.size) }
}

/// The entries of a document in document order. A document without a
/// collection, or with a collection without entries, has none.
pub open spec fn entries(document: StatusOutput) -> Seq<ChangeRecord> {
    match document.changes {
        Some(Changes { changes: Some(records) }) => records@,
        _ => Seq::empty(),
    }
}

/// Whether a document reports no change: it has no collection, or its
/// collection has no entry.
pub open spec fn lacks_entries(document: StatusOutput) -> bool {
    match document.changes {
        None => true,
        Some(Changes { changes: None }) => true,
        Some(Changes { changes: Some(records) }) => records@.len() == 0,
    }
}

/// The status that a document reports: one change for each entry, in
/// document order.
pub open spec fn reported_status(document: StatusOutput) -> Seq<ChangeView> {
    entries(document).map_values(|record: ChangeRecord| reported_change(record))
}

/// A document reports no change exactly where it has no collection, or a
/// collection without entries.
pub proof fn law_status_without_entries_is_clean(document: StatusOutput)
    ensures
        lacks_entries(document) <==> reported_status(document).len() == 0,
{
}

fn text_of(element: &Option<String>) -> (text: String)
    ensures
        text@ == text_or_empty(*element),
{
    match element {
        Some(text) => text.clone(),
        None => String::new(),
    }
}

impl Status {
    /// The status that a document reports. Missing elements are not an
    /// error: a missing collection is an empty one, a missing text is empty.
    pub fn from_document(document: &StatusOutput) -> (status: Status)
        ensures
            status@ == reported_status(*document),
            lacks_entries(*document) ==> status@.len() == 0,
    {
        let mut changes: Vec<Change> = Vec::new();
        if let Some(collection) = &document.changes {
            if let Some(records) = &collection.changes {
                let mut i: usize = 0;
                while i < records.len()
                    invariant
                        i <= records.len(),
                        records@ == entries(*document),
                        changes.len() == i,
                        forall|k: int|
                            0 <= k < i ==> (#[trigger] changes[k])@ == reported_change(records[k]),
                    decreases records.len() - i,
                {
                    let record = &records[i];
                    changes.push(
                        Change { path: text_of(&record.path), size: text_of(&record.size) },
                    );
                    i += 1;
                }
            }
        }
        Status { changes }
    }
}

/// Reads a captured status output. `document` is what the decoder made of
/// `raw`, `None` where `raw` is no status document.
///
/// A document gives its status, an empty one where the document has no
/// change entry. A text that is no document gives a decoding failure that
/// carries the text unchanged.
pub fn read_status(raw: String, document: Option<StatusOutput>) -> (result: Result<Status, Failure>)
    ensures
        match document {
            Some(found) => (result matches Ok(status) && status@ == reported_status(found)),
            None => (result matches Err(failure) && failure@ == (FailureView::Decode {
                raw: raw@,
            })),
        },
        document matches Some(found) ==> (lacks_entries(found) ==> (result matches Ok(status)
            && status@.len() == 0)),
{
    match document {
        Some(found) => Ok(Status::from_document(&found)),
        None => Err(Failure::Decode { raw }),
    }
}

} // verus!
