//! The ways in which keeping a workspace clean can fail.

use vstd::prelude::*;
use vstd::string::*;
use crate::invocation::{client, client_name, operation_name, Operation};

verus! {

/// Why an operation on the workspace was given up. Nothing is retried after
/// either of them.
#[derive(Debug, PartialEq, Eq)]
pub enum Failure {
    /// The client could not be started, or did not run to completion.
    ToolInvocation {
        /// The operation that was asked of the client.
        operation: Operation,
        /// What the system said of the failure.
        detail: String,
    },
    /// The client's status output is not a status document.
    Decode {
        /// The output as it was captured.
        raw: String,
    },
}

/// What a [`Failure`] stands for in contracts.
pub enum FailureView {
    ToolInvocation { operation: Operation, detail: Seq<char> },
    Decode { raw: Seq<char> },
}

impl View for Failure {
    type V = FailureView;

    open spec fn view(&self) -> FailureView {
        match *self {
            Failure::ToolInvocation { operation, detail } => FailureView::ToolInvocation {
                operation,
                detail: detail@,
            },
            Failure::Decode { raw } => FailureView::Decode { raw: raw@ },
        }
    }
}

/// The message that tells a person of a failure. That of a failed
/// invocation names the client and the operation as they stand on the
/// command line, and ends with the detail. That of a decoding failure quotes
/// the whole captured output.
pub open spec fn diagnostic(failure: FailureView) -> Seq<char> {
    match failure {
        FailureView::ToolInvocation { operation, detail } => "Error during `"@ + client() + " "@
            + operation_name(operation) + "`: "@ + detail,
        FailureView::Decode { raw } => "Cannot deserialize `"@ + raw + "`"@,
    }
}

impl Clone for Failure {
    fn clone(&self) -> (copy: Self)
        ensures
            copy == *self,
    {
        match self {
            Failure::ToolInvocation { operation, detail } => Failure::ToolInvocation {
                operation: *operation,
                detail: detail.clone(),
            },
            Failure::Decode { raw } => Failure::Decode { raw: raw.clone() },
        }
    }
}

impl Failure {
    /// The message that tells a person of the failure.
    pub fn message(&self) -> (text: String)
        ensures
            text@ == diagnostic(self@),
    {
        match self {
            Failure::ToolInvocation { operation, detail } => {
                let mut text = "Error during `".to_owned();
                text.append(client_name());
                text.append(" ");
                text.append(operation.name());
                text.append("`: ");
                text.append(detail.as_str());
                text
            },
            Failure::Decode { raw } => {
                let mut text = "Cannot deserialize `".to_owned();
                text.append(raw.as_str());
                text.append("`");
                text
            },
        }
    }
}

} // verus!
