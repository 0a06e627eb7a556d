//! The error of a range that was asked for by its two ends alone.

use vstd::prelude::*;

verus! {

/// Range error kind
#[derive(Debug, Clone, Copy, PartialEq, Eq)]
pub enum RangeErrorKind {
    /// Represents an invalid range (start of range greater than its end)
    InvalidRange,
}

/// Range error
#[derive(Debug, Clone, Copy, PartialEq, Eq)]
pub struct RangeError {
    kind: RangeErrorKind,
}

impl RangeError {
    /// The kind of the error.
    pub closed spec fn spec_kind(&self) -> RangeErrorKind {
        self.kind
    }

    /// creates new range error
    pub fn new(kind: RangeErrorKind) -> (error: Self)
        ensures
            error.spec_kind() == kind,
    {
        Self { kind }
    }

    /// Returns the kind of the error.
    #[verifier::when_used_as_spec(spec_kind)]
    pub fn kind(&self) -> (kind: RangeErrorKind)
        ensures
            kind == self.spec_kind(),
    {
        self.kind
    }
}

} // verus!
