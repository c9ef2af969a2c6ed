use vstd::prelude::*;
use crate::actor::Actor;

verus! {

/// Why a reaction's draft was discarded instead of committed.
#[derive(Clone, Copy, Debug, PartialEq, Eq)]
pub enum Error {
    /// The reaction itself flagged failure, with an opaque reason.
    Refused(&'static str),
    /// The event's target is not a registered actor.
    Unresolved,
}

/// The mathematical value of an `Error`, with the opaque reason as a
/// character sequence.
pub enum ErrorView {
    Refused(Seq<char>),
    Unresolved,
}

impl View for Error {
    type V = ErrorView;

    open spec fn view(&self) -> ErrorView {
        match *self {
            Error::Refused(reason) => ErrorView::Refused(reason@),
            Error::Unresolved => ErrorView::Unresolved,
        }
    }
}

/// One entry in the scheduler's diagnostic log: which actor a failed
/// reaction was dispatched to, and why it failed. Reporting failures here
/// — never by halting — lets the scheduler proceed to the next event.
#[derive(Clone, Copy, Debug, PartialEq, Eq)]
pub struct Fault {
    pub target: Actor,
    pub error: Error,
}

/// The mathematical value of a `Fault`.
pub struct FaultView {
    pub target: Actor,
    pub error: ErrorView,
}

impl View for Fault {
    type V = FaultView;

    open spec fn view(&self) -> FaultView {
        FaultView { target: self.target, error: self.error@ }
    }
}

/// The mathematical values of a sequence of faults, elementwise.
pub open spec fn fault_views(s: Seq<Fault>) -> Seq<FaultView> {
    Seq::new(s.len(), |i: int| s[i]@)
}

} // verus!
