//! The states that a `Sequence` can be in while it is configured.

use crate::sequence_part::types::AliveElementsPart;
use vstd::prelude::*;

verus! {

/// What a configuration state says about the initial elements of a sequence.
pub trait InitialElementsState: Sized {
    /// The number of leading elements that were supplied, not generated.
    spec fn initial_len(&self) -> nat;
}

/// The state of a sequence that has no initial elements.
#[derive(Debug, Clone, Copy, PartialEq, Eq)]
pub struct WithoutInitialElements;

/// The state of a sequence that has initial elements.
#[derive(Debug, Clone, Copy, PartialEq, Eq)]
pub struct WithInitialElements(usize);

impl InitialElementsState for WithoutInitialElements {
    open spec fn initial_len(&self) -> nat {
        0
    }
}

impl InitialElementsState for WithInitialElements {
    open spec fn initial_len(&self) -> nat {
        self.spec_len() as nat
    }
}

impl WithInitialElements {
    /// The length of the initial elements.
    pub closed spec fn spec_len(&self) -> usize {
        self.0
    }

    /// Create new instance.
    pub fn new(initial_elements_len: usize) -> (state: Self)
        ensures
            state.spec_len() == initial_elements_len,
    {
        Self(initial_elements_len)
    }

    /// Returns the length of the initial elements.
    #[verifier::when_used_as_spec(spec_len)]
    pub fn len(&self) -> (len: usize)
        ensures
            len == self.spec_len(),
    {
        self.0
    }

    /// Checks if the initial elements are empty.
    pub fn is_empty(&self) -> (empty: bool)
        ensures
            empty == (self.spec_len() == 0),
    {
        self.len() == 0
    }
}

/// The state of a sequence that has no transition function yet.
#[derive(Debug, Clone, Copy, PartialEq, Eq)]
pub struct WithoutTransitionFunction;

/// The state of a sequence that has the transition function `R`.
pub struct WithTransitionFunction<R>(R);

impl<R> WithTransitionFunction<R> {
    /// The transition function.
    pub closed spec fn spec_transition_function(&self) -> R {
        self.0
    }

    /// Create new instance.
    pub fn new(trans_func: R) -> (state: Self)
        ensures
            state.spec_transition_function() == trans_func,
    {
        Self(trans_func)
    }

    /// Returns the transition function.
    pub fn transition_function(&self) -> (trans_func: &R)
        ensures
            *trans_func == self.spec_transition_function(),
    {
        &self.0
    }

    /// Runs the transition function: shows it the part `alive_elements_part`
    /// and asks it for the element at `current_element_index`.
    pub fn run<'a, T>(
        &self,
        alive_elements_part: AliveElementsPart<'a, T>,
        current_element_index: usize,
    ) -> (element: T) where R: for <'b>Fn(AliveElementsPart<'b, T>, usize) -> T
        requires
            self.spec_transition_function().requires((alive_elements_part, current_element_index)),
        ensures
            self.spec_transition_function().ensures(
                (alive_elements_part, current_element_index),
                element,
            ),
    {
        (self.transition_function())(alive_elements_part, current_element_index)
    }
}

} // verus!
