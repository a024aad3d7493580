//! The errors that the stores report.

use vstd::prelude::*;
use vstd::string::StringExecFns;

verus! {

/// The kinds of failure. A missing value is no failure: loads report it as
/// an absent value.
#[derive(Clone, Copy, Debug, PartialEq, Eq, Structural)]
pub enum StoreErrorKind {
    /// A file could not be read, written or removed.
    Io,
    /// What was read is no well-formed document.
    Serialization,
    /// The keyring could not serve the request.
    BackendUnavailable,
    /// The in-memory store could not be locked.
    Lock,
}

/// A failure of a store operation: its kind, and a message that names the
/// operation.
#[derive(Debug, PartialEq, Eq)]
pub struct StoreError {
    pub kind: StoreErrorKind,
    pub message: String,
}

pub struct StoreErrorView {
    pub kind: StoreErrorKind,
    pub message: Seq<char>,
}

impl View for StoreError {
    type V = StoreErrorView;

    open spec fn view(&self) -> StoreErrorView {
        StoreErrorView { kind: self.kind, message: self.message@ }
    }
}

/// An error of the given kind with `context` before `why`.
pub open spec fn failure(kind: StoreErrorKind, context: Seq<char>, why: Seq<char>) -> StoreErrorView {
    StoreErrorView { kind, message: context + why }
}

impl StoreError {
    /// An error of the given kind whose message is `context` followed by
    /// `detail`.
    pub fn with_context(kind: StoreErrorKind, context: &str, detail: &str) -> (e: StoreError)
        ensures
            e@ == failure(kind, context@, detail@),
    {
        StoreError { kind, message: String::from_str(context).concat(detail) }
    }

    /// The same error with `context` put before its message.
    pub fn context(self, context: &str) -> (e: StoreError)
        ensures
            e@ == failure(self.kind, context@, self.message@),
    {
        StoreError {
            kind: self.kind,
            message: String::from_str(context).concat(self.message.as_str()),
        }
    }

    /// The message of the error.
    pub fn to_string(&self) -> (text: String)
        ensures
            text@ == self.message@,
    {
        self.message.clone()
    }
}

} // verus!
