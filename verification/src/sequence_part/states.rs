//! The states that a `SequencePart` can be in.

use vstd::prelude::*;

verus! {

/// The state of a part that stands for all the alive elements of a sequence.
#[derive(Debug, Clone, Copy, PartialEq, Eq, PartialOrd, Ord)]
pub struct AliveElements;

/// The state of a part that stands for the window `[start, end)` of a
/// sequence. The start of a range is never behind its end.
#[derive(Debug, Clone, Copy, PartialEq, Eq, PartialOrd, Ord)]
pub struct Range {
    start: usize,
    end: usize,
}

impl Range {
    #[verifier::type_invariant]
    spec fn ordered(self) -> bool {
        self.start <= self.end
    }

    /// The first index of the window.
    pub closed spec fn spec_start(&self) -> usize {
        self.start
    }

    /// The index at which the window ends; it is not itself part of the window.
    pub closed spec fn spec_end(&self) -> usize {
        self.end
    }

    /// The number of indices in the window.
    pub open spec fn spec_len(&self) -> nat {
        (self.spec_end() - self.spec_start()) as nat
    }

    /// Whether `index` lies inside the window.
    pub open spec fn contains(&self, index: int) -> bool {
        self.spec_start() <= index < self.spec_end()
    }

    /// Creates the window `[start, end)`.
    pub(crate) fn new(start: usize, end: usize) -> (range: Self)
        requires
            start <= end,
        ensures
            range.spec_start() == start,
            range.spec_end() == end,
    {
        Self { start, end }
    }

    /// Returns the start of the range.
    #[verifier::when_used_as_spec(spec_start)]
    pub fn start(&self) -> (start: usize)
        ensures
            start == self.spec_start(),
            start <= self.spec_end(),
    {
        proof {
            use_type_invariant(self);
        }
        self.start
    }

    /// Returns the end of the range.
    #[verifier::when_used_as_spec(spec_end)]
    pub fn end(&self) -> (end: usize)
        ensures
            end == self.spec_end(),
            self.spec_start() <= end,
    {
        proof {
            use_type_invariant(self);
        }
        self.end
    }

    /// Checks if an element is in range.
    pub fn nth_element_is_in_range(&self, index: usize) -> (in_range: bool)
        ensures
            in_range == self.contains(index as int),
    {
        index >= self.start() && index < self.end()
    }
}

} // verus!
