//! The errors that the library reports.

use crate::text::join;
use vstd::prelude::*;

verus! {

/// Why a command of the orchestrator fails.
#[derive(Debug)]
pub enum RunError {
    /// The package definition is malformed; the text says how.
    Parse(String),
    /// The external tool run under this label exited unsuccessfully.
    Tool(String),
    /// After a build, some artifact was missing or had another checksum than
    /// expected.
    ChecksumMismatch,
    /// The package would have to be built first.
    Precondition,
}

/// The mathematical value of a [`RunError`].
pub ghost enum RunErrorView {
    Parse(Seq<char>),
    Tool(Seq<char>),
    ChecksumMismatch,
    Precondition,
}

impl RunErrorView {
    /// The text shown for the error.
    pub open spec fn message(self) -> Seq<char> {
        match self {
            RunErrorView::Parse(reason) => reason,
            RunErrorView::Tool(label) => "Command ("@ + label + ") did not complete successfully"@,
            RunErrorView::ChecksumMismatch => "Some artifact checksums mismatched"@,
            RunErrorView::Precondition =>
                "Package needs to be built first, missing files or mismatched checksum"@,
        }
    }
}

impl View for RunError {
    type V = RunErrorView;

    open spec fn view(&self) -> RunErrorView {
        match self {
            RunError::Parse(reason) => RunErrorView::Parse(reason@),
            RunError::Tool(label) => RunErrorView::Tool(label@),
            RunError::ChecksumMismatch => RunErrorView::ChecksumMismatch,
            RunError::Precondition => RunErrorView::Precondition,
        }
    }
}

impl RunError {
    /// The text shown for the error.
    pub fn message(&self) -> (text: String)
        ensures
            text@ == self@.message(),
    {
        match self {
            RunError::Parse(reason) => reason.clone(),
            RunError::Tool(label) => {
                let head = join("Command (", label.as_str());
                join(head.as_str(), ") did not complete successfully")
            },
            RunError::ChecksumMismatch => String::from_str("Some artifact checksums mismatched"),
            RunError::Precondition => String::from_str(
                "Package needs to be built first, missing files or mismatched checksum",
            ),
        }
    }
}

/// The view of a result without a value.
pub open spec fn unit_result_view(result: Result<(), RunError>) -> Result<(), RunErrorView> {
    match result {
        Ok(()) => Ok(()),
        Err(e) => Err(e@),
    }
}

/// Turns the exit status of the tool run under `label` into a result: an
/// unsuccessful exit is a tool error that carries the label.
pub fn status_to_err(label: &str, success: bool) -> (result: Result<(), RunError>)
    ensures
        unit_result_view(result) == if success {
            Ok::<(), RunErrorView>(())
        } else {
            Err::<(), RunErrorView>(RunErrorView::Tool(label@))
        },
{
    if success {
        Ok(())
    } else {
        Err(RunError::Tool(String::from_str(label)))
    }
}

} // verus!
