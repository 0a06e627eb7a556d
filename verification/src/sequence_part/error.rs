//! The errors that creating a range of a sequence can end in.

use vstd::prelude::*;

verus! {

/// The reason why a range of a sequence was not created.
#[derive(Debug, Clone, Copy, PartialEq, Eq)]
pub enum RangeError {
    /// The start of the range is greater than its end.
    InvalidRange {
        /// Start of the range
        start: usize,
        /// End of the range
        end: usize,
    },
    /// The range reaches past the alive elements, and the part asked for does
    /// not generate.
    DeadRange,
}

} // verus!
