//! The failures that an operation of the supervisor can report.
use vstd::prelude::*;

verus! {

/// What went wrong, coarsely.
#[derive(Clone, Copy, Debug, PartialEq, Eq, Structural)]
pub enum ErrorKind {
    /// The build tool could not be run or exited unsuccessfully.
    BuildFailed,
    /// The build left no artifact that can be run.
    ArtifactNotFound,
    /// The worker process could not be created.
    SpawnFailed,
    /// The termination request could not be sent, or the exit not confirmed.
    KillFailed,
    /// A temporary file, an extraction or a pipe read failed.
    IoFailed,
    /// An outcome arrived that the operation in flight did not ask for; it was dropped.
    StateRecovered,
}

/// A failure: its kind and a message for the operator.
#[derive(Debug, PartialEq, Eq)]
pub struct Error {
    pub kind: ErrorKind,
    pub message: String,
}

/// The mathematical value of an [`Error`].
pub struct ErrorView {
    pub kind: ErrorKind,
    pub message: Seq<char>,
}

impl View for Error {
    type V = ErrorView;

    open spec fn view(&self) -> ErrorView {
        ErrorView { kind: self.kind, message: self.message@ }
    }
}

impl Error {
    /// A failure of `kind` with `message`.
    pub fn new(kind: ErrorKind, message: String) -> (error: Error)
        ensures
            error@ == (ErrorView { kind, message: message@ }),
    {
        Error { kind, message }
    }

    /// The kind of the failure.
    pub fn kind(&self) -> (kind: ErrorKind)
        ensures
            kind == self@.kind,
    {
        self.kind
    }

    /// The message, as the operator sees it.
    pub fn to_text(&self) -> (text: String)
        ensures
            text@ == self@.message,
    {
        self.message.clone()
    }
}

} // verus!
