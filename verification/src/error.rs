//! The failures that sealing and loading a triplet can report.
use vstd::prelude::*;

verus! {

/// Why a triplet could not be sealed or loaded.
#[derive(Clone, Copy, Debug, PartialEq, Eq, Structural, Hash)]
pub enum RecordError {
    /// The scope is not one of the registered kinds.
    UnknownScope,
    /// A tail is present for a scope that forbids it, or absent for one
    /// that requires it.
    TailPresenceViolation,
    /// The header, body or tail is structurally incomplete.
    MalformedRecord,
    /// The recomputed digest disagrees with the stored one.
    IntegrityMismatch,
}

impl RecordError {
    /// A short description of the failure.
    pub fn message(self) -> (m: &'static str)
        ensures
            m@ == Self::spec_message(self),
    {
        match self {
            RecordError::UnknownScope => "unknown scope",
            RecordError::TailPresenceViolation => "tail presence violates the scope rule",
            RecordError::MalformedRecord => "malformed record",
            RecordError::IntegrityMismatch => "integrity hash mismatch",
        }
    }

    /// The text that [`RecordError::message`] returns.
    pub open spec fn spec_message(self) -> Seq<char> {
        match self {
            RecordError::UnknownScope => "unknown scope"@,
            RecordError::TailPresenceViolation => "tail presence violates the scope rule"@,
            RecordError::MalformedRecord => "malformed record"@,
            RecordError::IntegrityMismatch => "integrity hash mismatch"@,
        }
    }
}

} // verus!
