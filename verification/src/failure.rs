//! What can go wrong on one host.

use vstd::prelude::*;
use vstd::string::*;

verus! {

/// The kinds of failure of one host's task. A failure never reaches beyond
/// the host on which it happened.
#[derive(Debug, Clone, Copy, PartialEq, Eq, Structural)]
pub enum FailureKind {
    /// A host string could not be resolved to an address.
    AddressResolution,
    /// The connection could not be opened, or timed out.
    Transport,
    /// The host rejected the credentials.
    Authentication,
    /// Reading or writing failed in the middle of an operation.
    Protocol,
    /// A local file could not be read or written during a transfer.
    LocalIo,
}

/// A failure: its kind and a description for the operator.
#[derive(Debug, PartialEq, Eq)]
pub struct Failure {
    /// What kind of failure this is.
    pub kind: FailureKind,
    /// Human-readable description.
    pub message: String,
}

/// Mathematical value of a [`Failure`].
pub struct FailureView {
    pub kind: FailureKind,
    pub message: Seq<char>,
}

impl View for Failure {
    type V = FailureView;

    open spec fn view(&self) -> FailureView {
        FailureView { kind: self.kind, message: self.message@ }
    }
}

impl Clone for Failure {
    fn clone(&self) -> (copy: Self)
        ensures
            copy == *self,
    {
        Failure { kind: self.kind, message: self.message.clone() }
    }
}

impl Failure {
    /// A failure of the given kind with the given description.
    pub fn new(kind: FailureKind, message: &str) -> (failure: Failure)
        ensures
            failure@ == (FailureView { kind, message: message@ }),
    {
        Failure { kind, message: String::from_str(message) }
    }
}

} // verus!
