//! The failures that end an operation. Each carries its kind, the status code
//! where the service answered with one, and the message for the user.

use vstd::prelude::*;

verus! {

/// What introduces the cause of a failure, on a line of its own.
pub const CAUSED_BY: &'static str = "\n\nCaused by:\n    ";

/// The message of a failure that has a cause: what failed, and below it the
/// cause.
pub open spec fn with_cause(summary: Seq<char>, cause: Seq<char>) -> Seq<char> {
    summary + CAUSED_BY@ + cause
}

/// What went wrong.
#[derive(Debug, Clone, Copy, PartialEq, Eq, Structural)]
pub enum ErrorKind {
    /// No credential could be had: the variable is not set and the token file
    /// could not be opened or read.
    Credential,
    /// The credential cannot stand in a request header.
    Header,
    /// The service could not be reached.
    Transport,
    /// The service answered with a status that reports failure.
    Api,
    /// The service reported success, but its answer is no resource.
    Decode,
}

/// A failure, as it is reported to the user.
#[derive(Debug, PartialEq, Eq)]
pub struct Error {
    pub kind: ErrorKind,
    /// The status code of the answer, for the kind `Api`.
    pub status: Option<u16>,
    pub message: String,
}

/// The mathematical value of an `Error`.
pub struct ErrorView {
    pub kind: ErrorKind,
    pub status: Option<u16>,
    pub message: Seq<char>,
}

impl View for Error {
    type V = ErrorView;

    open spec fn view(&self) -> ErrorView {
        ErrorView { kind: self.kind, status: self.status, message: self.message@ }
    }
}

impl Error {
    /// A failure of the given kind that no status code belongs to.
    pub fn new(kind: ErrorKind, message: String) -> (e: Error)
        ensures
            e@ == (ErrorView { kind, status: None, message: message@ }),
    {
        Error { kind, status: None, message }
    }

    /// A failure of the given kind that has a cause.
    pub fn caused(kind: ErrorKind, summary: &str, cause: &str) -> (e: Error)
        ensures
            e@ == (ErrorView { kind, status: None, message: with_cause(summary@, cause@) }),
    {
        let mut message = summary.to_owned();
        message.append(CAUSED_BY);
        message.append(cause);
        Error::new(kind, message)
    }

    /// The failure that an answer with the status `status` stands for.
    pub fn api(status: u16, message: String) -> (e: Error)
        ensures
            e@ == (ErrorView { kind: ErrorKind::Api, status: Some(status), message: message@ }),
    {
        Error { kind: ErrorKind::Api, status: Some(status), message }
    }
}

} // verus!
