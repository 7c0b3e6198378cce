//! The error that a generator or a seeding may report, and its severity.

use vstd::prelude::*;

verus! {

/// How serious a failure is, and whether trying again may help.
#[derive(Clone, Copy, Debug, PartialEq, Eq, Structural)]
pub enum ErrorKind {
    /// Permanent: the generator cannot be used at all.
    Unavailable,
    /// Not foreseen; trying again may or may not help.
    Unexpected,
    /// Temporary: trying again at once is in order.
    Transient,
    /// The generator is not ready yet; trying again later may help.
    NotReady,
}

impl ErrorKind {
    /// Whether trying again can help: true of every kind but `Unavailable`.
    pub open spec fn retryable(self) -> bool {
        self != ErrorKind::Unavailable
    }

    /// Whether trying again can help.
    #[verifier::when_used_as_spec(retryable)]
    pub fn should_retry(self) -> (retry: bool)
        ensures
            retry == self.retryable(),
    {
        self != ErrorKind::Unavailable
    }
}

/// A failure of a generator, with its severity and a fixed description.
#[derive(Clone, Copy, Debug, PartialEq, Eq)]
pub struct Error {
    /// The severity.
    pub kind: ErrorKind,
    /// What went wrong.
    pub msg: &'static str,
}

impl Error {
    /// An error of the given severity and description.
    pub fn new(kind: ErrorKind, msg: &'static str) -> (e: Error)
        ensures
            e.kind == kind,
            e.msg == msg,
    {
        Error { kind, msg }
    }

    /// The same failure, reported as temporary.
    pub open spec fn as_transient(self) -> Error {
        Error { kind: ErrorKind::Transient, msg: self.msg }
    }
}

} // verus!
