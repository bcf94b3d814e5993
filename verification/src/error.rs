//! The one failure that a run reports.

use vstd::prelude::*;
use vstd::string::StringExecFns;

verus! {

/// How a failure is to be treated.
#[derive(Clone, Copy, Debug, PartialEq, Eq, Structural)]
pub enum ErrorKind {
    /// Expected to pass by itself (a network fault, a server-side fault): worth another attempt.
    Transient,
    /// Structural (a malformed response, bad credentials, a schema that cannot be reconciled).
    Fatal,
    /// The progress document could not be written.
    Storage,
}

/// A failure of a collaborator, and thereby of the run.
#[derive(Debug, PartialEq, Eq)]
pub struct RunError {
    pub kind: ErrorKind,
    pub message: String,
}

/// The value of a [`RunError`].
pub ghost struct RunErrorView {
    pub kind: ErrorKind,
    pub message: Seq<char>,
}

impl View for RunError {
    type V = RunErrorView;

    open spec fn view(&self) -> RunErrorView {
        RunErrorView { kind: self.kind, message: self.message@ }
    }
}

impl Clone for RunError {
    fn clone(&self) -> (copy: RunError)
        ensures
            copy == *self,
    {
        RunError { kind: self.kind, message: self.message.clone() }
    }
}

impl RunError {
    pub fn new(kind: ErrorKind, message: &str) -> (e: RunError)
        ensures
            e@ == (RunErrorView { kind, message: message@ }),
    {
        RunError { kind, message: String::from_str(message) }
    }

    pub fn transient(message: &str) -> (e: RunError)
        ensures
            e@ == (RunErrorView { kind: ErrorKind::Transient, message: message@ }),
    {
        RunError::new(ErrorKind::Transient, message)
    }

    pub fn fatal(message: &str) -> (e: RunError)
        ensures
            e@ == (RunErrorView { kind: ErrorKind::Fatal, message: message@ }),
    {
        RunError::new(ErrorKind::Fatal, message)
    }

    pub fn storage(message: &str) -> (e: RunError)
        ensures
            e@ == (RunErrorView { kind: ErrorKind::Storage, message: message@ }),
    {
        RunError::new(ErrorKind::Storage, message)
    }
}

} // verus!
