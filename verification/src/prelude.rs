//! The names that most users of the library need, and two shortcuts that
//! make a sequence ready to generate in one call.

use crate::sequence::states::{
    WithInitialElements, WithTransitionFunction, WithoutInitialElements,
};
use crate::sequence_part::types::AliveElementsPart;
use vstd::prelude::*;

pub use crate::sequence::{Sequence, SharedSequenceBehavior};
pub use crate::sequence_part::error::RangeError;
pub use crate::sequence_part::{SequencePart, SharedSequencePartBehavior};

verus! {

/// Creates a sequence without initial elements that generates by
/// `transition_function`.
pub fn seq_without_initial_elements<T, R>(transition_function: R) -> (sequence: Sequence<
    T,
    WithoutInitialElements,
    WithTransitionFunction<R>,
>) where R: for <'a>Fn(AliveElementsPart<'a, T>, usize) -> T
    ensures
        sequence.wf(),
        sequence@ == Seq::<T>::empty(),
        sequence.rule() == transition_function,
        sequence.cursor() == 0,
{
    Sequence::new().transition_function(transition_function)
}

/// Creates a sequence that begins with `initial_elements` and generates by
/// `transition_function`.
pub fn seq_with_initial_elements<T, R>(initial_elements: Vec<T>, transition_function: R) -> (sequence:
    Sequence<T, WithInitialElements, WithTransitionFunction<R>>) where
    R: for <'a>Fn(AliveElementsPart<'a, T>, usize) -> T,

    ensures
        sequence.wf(),
        sequence@ == initial_elements@,
        sequence.initial_len() == initial_elements@.len(),
        sequence.rule() == transition_function,
        sequence.cursor() == 0,
{
    Sequence::new().initial_elements(initial_elements).transition_function(transition_function)
}

} // verus!
