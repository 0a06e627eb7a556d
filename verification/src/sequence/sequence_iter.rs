//! A stream over the alive elements of a sequence that it owns.

use super::states::{InitialElementsState, WithTransitionFunction};
use super::Sequence;
use crate::sequence_part::is_clone_of;
use crate::sequence_part::types::AliveElementsPart;
use vstd::prelude::*;

verus! {

/// SequenceIter: an iterator over the sequence
///
/// It gives the elements that are alive and generates none: where the
/// sequence's own `next` goes on for ever, this stream ends behind the last
/// alive element.
pub struct SequenceIter<T, I, R> {
    sequence: Sequence<T, I, WithTransitionFunction<R>>,
    iter_index: usize,
}

impl<T, I: InitialElementsState, R> SequenceIter<T, I, R> where
    R: for <'a>Fn(AliveElementsPart<'a, T>, usize) -> T,
 {
    /// The sequence that the stream owns.
    pub closed spec fn sequence(&self) -> Sequence<T, I, WithTransitionFunction<R>> {
        self.sequence
    }

    /// The index of the element that `next` gives next.
    pub closed spec fn cursor(&self) -> usize {
        self.iter_index
    }

    /// The alive element at `index`, if there is one.
    pub open spec fn element_at(&self, index: usize) -> Option<&T> {
        if index < self.sequence()@.len() {
            Some(&self.sequence()@[index as int])
        } else {
            None
        }
    }

    /// Creates a new sequence iterator
    pub fn new(sequence: Sequence<T, I, WithTransitionFunction<R>>) -> (iter: Self)
        ensures
            iter.sequence() == sequence,
            iter.cursor() == 0,
    {
        Self { sequence, iter_index: 0 }
    }

    /// Returns the underlying sequence
    pub fn as_seq(self) -> (sequence: Sequence<T, I, WithTransitionFunction<R>>)
        ensures
            sequence == self.sequence(),
    {
        self.sequence
    }
}

impl<T: Clone, I: InitialElementsState, R> SequenceIter<T, I, R> where
    R: for <'a>Fn(AliveElementsPart<'a, T>, usize) -> T,
 {
    /// Gives a clone of the alive element under the cursor and moves the
    /// cursor on. Behind the last alive element it gives `None` and moves the
    /// cursor back to the start.
    pub fn next(&mut self) -> (element: Option<T>)
        ensures
            final(self).sequence() == old(self).sequence(),
            is_clone_of(element, old(self).element_at(old(self).cursor())),
            old(self).cursor() >= old(self).sequence()@.len() ==> final(self).cursor() == 0,
            old(self).cursor() < old(self).sequence()@.len() ==> final(self).cursor() == old(self).cursor()
                + 1,
    {
        let iter_index = self.iter_index;
        if iter_index >= self.sequence.alive_elements_len() {
            self.iter_index = 0;
            return None;
        }
        self.iter_index += 1;
        self.sequence.nth_element_without_generation(iter_index).cloned()
    }
}

} // verus!
