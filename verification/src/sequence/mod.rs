//! The sequence: its store of alive elements and the engine that fills it.

pub mod generation;
pub mod sequence_iter;
pub mod states;

use self::generation::{
    accepts_through, extends, generated_from, generated_through, is_linear, is_total, produces,
};
use self::generation::{
    is_deterministic, lemma_extends_push, lemma_generated_from_extends,
    lemma_generated_through_idempotent, lemma_generated_through_keeps, lemma_same_element,
};
use self::states::{
    InitialElementsState, WithInitialElements, WithTransitionFunction, WithoutInitialElements,
    WithoutTransitionFunction,
};
use crate::sequence_part::error::RangeError;
use crate::sequence_part::types::{
    AliveElementsPart, RangePartImmut, RangePartImmutResult, RangePartMut, RangePartMutResult,
};
use crate::sequence_part::{is_clone_of, SharedSequencePartBehavior};
use vstd::prelude::*;

verus! {

/// Shared behavior between sequences that requires initial elements
/// and sequences that do not require initial elements.
///
/// What the four conditions mean on a sequence is said by the sequence's
/// `lemma_shared_behavior`.
pub trait SharedSequenceBehavior: Sized {
    /// Whether the sequence can pre-generate `number_of_elements` elements.
    spec fn can_pre_generate(&self, number_of_elements: usize) -> bool;

    /// `after` is what pre-generating `number_of_elements` elements makes of
    /// the sequence.
    spec fn pre_generates(&self, number_of_elements: usize, after: &Self) -> bool;

    /// Whether the sequence can be cleared.
    spec fn can_clear(&self) -> bool;

    /// `after` is what clearing makes of the sequence.
    spec fn clears(&self, after: &Self) -> bool;

    /// Pre generate the specified number elements on the sequence.
    fn pre_generate(self, number_of_elements: usize) -> (sequence: Self)
        requires
            self.can_pre_generate(number_of_elements),
        ensures
            self.pre_generates(number_of_elements, &sequence),
    ;

    /// Removes all alive (generated) elements.
    fn clear(&mut self)
        requires
            old(self).can_clear(),
        ensures
            old(self).clears(final(self)),
    ;
}

/// A sequence whose elements are generated on demand and kept.
///
/// `I` tells whether initial elements were supplied, `F` whether a transition
/// function was: only a sequence with a transition function can generate.
/// The alive elements are held in a `Vec`, so a sequence holds at most
/// `usize::MAX` of them.
pub struct Sequence<T, I, F> {
    initial_elements: I,
    trans_func: F,
    alive_elements: Vec<T>,
    iter_index: usize,
}

impl<T, I, F> Sequence<T, I, F> {
    /// The alive elements: all that the sequence holds, by index.
    pub closed spec fn view(&self) -> Seq<T> {
        self.alive_elements@
    }

    /// What the sequence knows of its initial elements.
    pub closed spec fn initial_state(&self) -> I {
        self.initial_elements
    }

    /// What the sequence knows of its transition function.
    pub closed spec fn function_state(&self) -> F {
        self.trans_func
    }

    /// The index of the element that `next` gives next.
    pub closed spec fn cursor(&self) -> usize {
        self.iter_index
    }
}

impl<T, I: InitialElementsState, F> Sequence<T, I, F> {
    /// The number of leading elements that were supplied, not generated.
    pub open spec fn initial_len(&self) -> nat {
        self.initial_state().initial_len()
    }
}

impl<T, I: InitialElementsState> Sequence<T, I, WithoutTransitionFunction> {
    /// A sequence without a transition function holds its initial elements
    /// and nothing else, and its cursor stands at the start.
    pub open spec fn wf(&self) -> bool {
        &&& self@.len() == self.initial_len()
        &&& self.cursor() == 0
    }
}

impl<T> Default for Sequence<T, WithoutInitialElements, WithoutTransitionFunction> {
    /// Creates a default instance of Sequence (undefined sequence).
    fn default() -> (sequence: Self)
        ensures
            sequence.wf(),
            sequence@ == Seq::<T>::empty(),
    {
        Self {
            initial_elements: WithoutInitialElements,
            trans_func: WithoutTransitionFunction,
            alive_elements: Vec::new(),
            iter_index: 0,
        }
    }
}

impl<T> Sequence<T, WithoutInitialElements, WithoutTransitionFunction> {
    /// Creates a new instance of Sequence which is an undefined Sequence.
    pub fn new() -> (sequence: Self)
        ensures
            sequence.wf(),
            sequence@ == Seq::<T>::empty(),
    {
        Sequence::default()
    }

    /// Adds initial elements to the sequence.
    pub fn initial_elements(self, initial_elements: Vec<T>) -> (sequence: Sequence<
        T,
        WithInitialElements,
        WithoutTransitionFunction,
    >)
        requires
            self.wf(),
        ensures
            sequence.wf(),
            sequence@ == initial_elements@,
            sequence.initial_len() == initial_elements@.len(),
    {
        Sequence {
            initial_elements: WithInitialElements::new(initial_elements.len()),
            trans_func: self.trans_func,
            alive_elements: initial_elements,
            iter_index: self.iter_index,
        }
    }
}

impl<T, F> Sequence<T, WithInitialElements, F> {
    /// Returns the length of the initial elements.
    pub fn initial_elements_len(&self) -> (len: usize)
        ensures
            len == self.initial_len(),
    {
        self.initial_elements.len()
    }
}

impl<T, I: InitialElementsState> Sequence<T, I, WithoutTransitionFunction> {
    /// Adds transition function to the sequence.
    pub fn transition_function<R>(self, trans_func: R) -> (sequence: Sequence<
        T,
        I,
        WithTransitionFunction<R>,
    >) where R: for <'a>Fn(AliveElementsPart<'a, T>, usize) -> T
        requires
            self.wf(),
        ensures
            sequence.wf(),
            sequence@ == self@,
            sequence.rule() == trans_func,
            sequence.initial_state() == self.initial_state(),
            sequence.cursor() == 0,
    {
        Sequence {
            initial_elements: self.initial_elements,
            trans_func: WithTransitionFunction::new(trans_func),
            alive_elements: self.alive_elements,
            iter_index: self.iter_index,
        }
    }
}

impl<T, I: InitialElementsState, R> Sequence<T, I, WithTransitionFunction<R>> where
    R: for <'a>Fn(AliveElementsPart<'a, T>, usize) -> T,
 {
    /// The transition function.
    pub open spec fn rule(&self) -> R {
        self.function_state().spec_transition_function()
    }

    /// The initial elements are alive, and every element behind them is one
    /// that the transition function produces from the elements before it.
    pub open spec fn wf(&self) -> bool {
        &&& self.initial_len() <= self@.len()
        &&& generated_from(self.rule(), self.initial_len(), self@)
    }

    /// `after` is what generating through `index` makes of this sequence: the
    /// same sequence, its alive elements continued by the transition function
    /// as far as `index` asks for.
    pub open spec fn generates_through(&self, index: nat, after: &Self) -> bool {
        &&& after.wf()
        &&& after.rule() == self.rule()
        &&& after.initial_state() == self.initial_state()
        &&& generated_through(self.rule(), self@, index, after@)
    }

    /// The index through which pre-generating `number_of_elements` elements
    /// generates: that of the last of as many elements behind the initial
    /// ones.
    pub open spec fn pre_generation_index(&self, number_of_elements: usize) -> int {
        self.initial_len() + number_of_elements - 1
    }

    /// The sequence can pre-generate `number_of_elements` elements: it is
    /// well formed and, where any element is asked for, the index of the
    /// last is a `usize` and the transition function accepts the calls that
    /// generating through it makes.
    pub open spec fn accepts_pre_generation(&self, number_of_elements: usize) -> bool {
        &&& self.wf()
        &&& number_of_elements > 0 ==> self.pre_generation_index(number_of_elements) <= usize::MAX
        &&& number_of_elements > 0 ==> accepts_through(
            self.rule(),
            self@,
            self.pre_generation_index(number_of_elements) as nat,
        )
    }

    /// `after` is what pre-generating `number_of_elements` elements makes of
    /// this sequence. The elements are counted from behind the initial ones,
    /// not from behind the alive ones; none asked for, nothing changes.
    pub open spec fn pre_generated(&self, number_of_elements: usize, after: &Self) -> bool {
        &&& after.cursor() == self.cursor()
        &&& if number_of_elements > 0 {
            self.generates_through(self.pre_generation_index(number_of_elements) as nat, after)
        } else {
            after == self
        }
    }

    /// `after` is what clearing makes of this sequence: the initial elements
    /// stay, and nothing else.
    pub open spec fn cleared(&self, after: &Self) -> bool {
        &&& after.wf()
        &&& after.rule() == self.rule()
        &&& after.initial_state() == self.initial_state()
        &&& after.cursor() == self.cursor()
        &&& after@ == self@.take(self.initial_len() as int)
    }

    /// Generating through an index twice is generating through it once: the
    /// second generation leaves the alive elements as the first left them.
    pub proof fn lemma_generation_is_idempotent(&self, index: nat, once: &Self, twice: &Self)
        requires
            self.generates_through(index, once),
            once.generates_through(index, twice),
        ensures
            twice@ == once@,
    {
        lemma_generated_through_idempotent(self.rule(), self@, index, once@, twice@);
    }

    /// Generating never takes an element away nor changes one: the number of
    /// alive elements does not go down, and what was alive stays what it was.
    pub proof fn lemma_generation_grows(&self, index: nat, after: &Self)
        requires
            self.generates_through(index, after),
        ensures
            self@.len() <= after@.len(),
            index < after@.len(),
            forall|i: int| 0 <= i < self@.len() ==> after@[i] == self@[i],
    {
        lemma_generated_through_keeps(self.rule(), self@, index, after@);
    }

    /// The elements of a sequence do not depend on the calls that generated
    /// them, nor on their order. Two well-formed sequences with the same
    /// initial elements and the same deterministic transition function hold
    /// the same element at every index that is alive in both: the element
    /// that one ascending pass from the initial elements puts there.
    pub proof fn lemma_elements_agree(&self, other: &Self, index: int)
        requires
            self.wf(),
            other.wf(),
            is_deterministic(self.rule()),
            other.rule() == self.rule(),
            other.initial_len() == self.initial_len(),
            other@.take(self.initial_len() as int) == self@.take(self.initial_len() as int),
            0 <= index < self@.len(),
            index < other@.len(),
        ensures
            self@[index] == other@[index],
    {
        lemma_same_element(self.rule(), self.initial_len(), self@, other@, index);
    }

    /// Generates the nth element and all the preceding elements and stores them in the sequence.
    ///
    /// The elements are generated in ascending order, one at a time: the
    /// transition function sees, for each index, all the elements before it
    /// and no other.
    pub fn generate_nth_element(&mut self, nth_element: usize)
        requires
            old(self).wf(),
            accepts_through(old(self).rule(), old(self)@, nth_element as nat),
        ensures
            old(self).generates_through(nth_element as nat, final(self)),
            final(self).cursor() == old(self).cursor(),
    {
        if !self.nth_element_is_alive(nth_element) {
            while self.alive_elements.len() <= nth_element
                invariant
                    self.rule() == old(self).rule(),
                    self.initial_state() == old(self).initial_state(),
                    self.cursor() == old(self).cursor(),
                    extends(self.rule(), old(self)@, self@),
                    self@.len() <= nth_element + 1,
                    old(self)@.len() <= nth_element,
                    accepts_through(self.rule(), old(self)@, nth_element as nat),
                decreases nth_element + 1 - self@.len(),
            {
                let current_element_index = self.alive_elements.len();
                let alive_elements_part = self.alive_elements();
                let new_element = self.trans_func.run(alive_elements_part, current_element_index);
                proof {
                    assert(produces(self.rule(), self@, new_element));
                    lemma_extends_push(self.rule(), old(self)@, self@, new_element);
                }
                self.alive_elements.push(new_element);
            }
        }
        proof {
            lemma_generated_from_extends(self.rule(), self.initial_len(), old(self)@, self@);
        }
    }

    /// Returns a reference to the nth element if it is alive in a Some variant
    /// This method does not generate the nth elements if it is dead it just returns None.
    pub fn nth_element_without_generation(&self, index: usize) -> (element: Option<&T>)
        ensures
            element == (if index < self@.len() {
                Some(&self@[index as int])
            } else {
                None
            }),
    {
        if !self.nth_element_is_alive(index) {
            return None;
        }
        Some(&self.alive_elements[index])
    }

    /// Generates the specified number of elements behind those that are
    /// alive.
    pub fn generate(&mut self, number_of_elements: usize)
        requires
            old(self).wf(),
            number_of_elements > 0 ==> old(self)@.len() + number_of_elements - 1 <= usize::MAX,
            number_of_elements > 0 ==> accepts_through(
                old(self).rule(),
                old(self)@,
                (old(self)@.len() + number_of_elements - 1) as nat,
            ),
        ensures
            number_of_elements == 0 ==> *final(self) == *old(self),
            number_of_elements > 0 ==> old(self).generates_through(
                (old(self)@.len() + number_of_elements - 1) as nat,
                final(self),
            ),
            final(self)@.len() == old(self)@.len() + number_of_elements,
            final(self).cursor() == old(self).cursor(),
    {
        if number_of_elements > 0 {
            self.generate_nth_element(self.alive_elements_len() + (number_of_elements - 1));
        }
    }

    /// Returns the length of the alive elements.
    pub fn alive_elements_len(&self) -> (len: usize)
        ensures
            len == self@.len(),
    {
        self.alive_elements.len()
    }

    /// Checks if an element is alive.
    pub fn nth_element_is_alive(&self, index: usize) -> (alive: bool)
        ensures
            alive == (index < self@.len()),
    {
        index < self.alive_elements_len()
    }

    /// Returns a reference to the nth element if it is alive.
    /// This method generate the nth element if it is dead before returning its reference.
    pub fn nth_element(&mut self, index: usize) -> (element: &T)
        requires
            old(self).wf(),
            accepts_through(old(self).rule(), old(self)@, index as nat),
        ensures
            old(self).generates_through(index as nat, final(self)),
            final(self).cursor() == old(self).cursor(),
            *element == final(self)@[index as int],
    {
        self.generate_nth_element(index);
        &self.alive_elements[index]
    }

    /// Returns a sequence part that represents the alive elements.
    pub fn alive_elements(&self) -> (part: AliveElementsPart<'_, T>)
        ensures
            part.is_view_of(self@),
    {
        AliveElementsPart::new(&self.alive_elements)
    }

    /// Returns a sequence part that represents an immutable range of the sequence.
    ///
    /// The part does not generate: a range that ends behind the alive
    /// elements is refused as dead. An empty range asks for no element and is
    /// never dead.
    pub fn range(&self, start: usize, end: usize) -> (result: RangePartImmutResult<'_, T>)
        ensures
            start > end <==> result is Err && result->Err_0 == (RangeError::InvalidRange {
                start,
                end,
            }),
            start <= end && end > self@.len() <==> result is Err && result->Err_0
                == RangeError::DeadRange,
            start <= end && end <= self@.len() <==> result is Ok,
            result matches Ok(part) ==> part.wf() && part.cursor() == 0,
            result matches Ok(part) ==> part.state().start() == start && part.state().end() == end,
            result matches Ok(part) ==> part.parent_elements() == self@,
    {
        if start > end {
            return Err(RangeError::InvalidRange { start, end });
        }
        if end > self.alive_elements_len() {
            return Err(RangeError::DeadRange);
        }
        Ok(RangePartImmut::new_range(&self.alive_elements, start, end))
    }

    /// Returns a sequence part that represents a mutable range of the sequence.
    ///
    /// The part generates what is asked of it and not yet alive; making it
    /// generates nothing. The sequence is borrowed for as long as the part
    /// lives, and is then what the part has made of it: in a proof,
    /// `lemma_parent_resolved` says so of a part that is done with.
    pub fn range_mut(&mut self, start: usize, end: usize) -> (result: RangePartMutResult<
        '_,
        T,
        I,
        R,
    >)
        requires
            old(self).wf(),
        ensures
            start > end <==> result is Err,
            result matches Err(error) ==> error == (RangeError::InvalidRange { start, end }),
            result is Err ==> *final(self) == *old(self),
            result matches Ok(part) ==> part.wf() && part.cursor() == 0,
            result matches Ok(part) ==> part.state().start() == start && part.state().end() == end,
            result matches Ok(part) ==> part.parent() == *old(self),
            result matches Ok(part) ==> *final(self) == *final(part.parent_handle()),
    {
        if start > end {
            return Err(RangeError::InvalidRange { start, end });
        }
        Ok(RangePartMut::new_range_mut(self, start, end))
    }
}

impl<T: Clone, I: InitialElementsState, R> Sequence<T, I, WithTransitionFunction<R>> where
    R: for <'a>Fn(AliveElementsPart<'a, T>, usize) -> T,
 {
    /// Gives a clone of the element under the cursor, which it generates if
    /// it was not alive, and moves the cursor on.
    ///
    /// The stream ends only where the cursor cannot move on, at
    /// `usize::MAX`: there `None` is given, nothing is generated, and the
    /// cursor goes back to the start.
    pub fn next(&mut self) -> (element: Option<T>)
        requires
            old(self).wf(),
            old(self).cursor() < usize::MAX ==> accepts_through(
                old(self).rule(),
                old(self)@,
                old(self).cursor() as nat,
            ),
        ensures
            final(self).wf(),
            final(self).rule() == old(self).rule(),
            final(self).initial_state() == old(self).initial_state(),
            old(self).cursor() == usize::MAX ==> element is None,
            old(self).cursor() == usize::MAX ==> final(self).cursor() == 0,
            old(self).cursor() == usize::MAX ==> final(self)@ == old(self)@,
            old(self).cursor() < usize::MAX ==> final(self).cursor() == old(self).cursor() + 1,
            old(self).cursor() < usize::MAX ==> old(self).generates_through(
                old(self).cursor() as nat,
                final(self),
            ),
            old(self).cursor() < usize::MAX ==> is_clone_of(
                element,
                Some(&final(self)@[old(self).cursor() as int]),
            ),
    {
        let iter_index = self.iter_index;
        if iter_index == usize::MAX {
            self.iter_index = 0;
            return None;
        }
        self.iter_index += 1;
        Some(self.nth_element(iter_index).clone())
    }
}

impl Sequence<usize, WithoutInitialElements, WithoutTransitionFunction> {
    /// Returns a linear sequence: the sequence without initial elements
    /// whose element at every index is the index.
    pub fn linear_seq() -> (sequence: Sequence<
        usize,
        WithoutInitialElements,
        WithTransitionFunction<impl for <'a>Fn(AliveElementsPart<'a, usize>, usize) -> usize>,
    >)
        ensures
            sequence.wf(),
            sequence@ == Seq::<usize>::empty(),
            sequence.cursor() == 0,
            is_total(sequence.rule()),
            is_linear(sequence.rule()),
    {
        Sequence::new().transition_function(linear_transition)
    }
}

/// The transition function of the linear sequence: the element at an index
/// is the index, whatever came before.
pub fn linear_transition(
    _alive_elements: AliveElementsPart<'_, usize>,
    index: usize,
) -> (element: usize)
    ensures
        element == index,
{
    index
}

impl<T, R> SharedSequenceBehavior for Sequence<
    T,
    WithInitialElements,
    WithTransitionFunction<R>,
> where R: for <'a>Fn(AliveElementsPart<'a, T>, usize) -> T {
    open spec fn can_pre_generate(&self, number_of_elements: usize) -> bool {
        self.accepts_pre_generation(number_of_elements)
    }

    open spec fn pre_generates(&self, number_of_elements: usize, after: &Self) -> bool {
        self.pre_generated(number_of_elements, after)
    }

    open spec fn can_clear(&self) -> bool {
        self.wf()
    }

    open spec fn clears(&self, after: &Self) -> bool {
        self.cleared(after)
    }

    fn pre_generate(self, number_of_elements: usize) -> (sequence: Self)
        ensures
            self.pre_generated(number_of_elements, &sequence),
    {
        let mut sequence = self;
        if number_of_elements > 0 {
            let initial_elements_len = sequence.initial_elements_len();
            let last_generated_element = number_of_elements - 1 + initial_elements_len;
            sequence.generate_nth_element(last_generated_element);
        }
        sequence
    }

    fn clear(&mut self)
        ensures
            old(self).cleared(final(self)),
    {
        let initial_elements_len = self.initial_elements_len();
        self.alive_elements.truncate(initial_elements_len);
    }
}

impl<T, R> Sequence<T, WithInitialElements, WithTransitionFunction<R>> where
    R: for <'a>Fn(AliveElementsPart<'a, T>, usize) -> T,
 {
    /// What the shared behavior of sequences says of a sequence with initial
    /// elements.
    pub proof fn lemma_shared_behavior(&self, number_of_elements: usize, after: &Self)
        ensures
            self.can_pre_generate(number_of_elements) == self.accepts_pre_generation(
                number_of_elements,
            ),
            self.pre_generates(number_of_elements, after) == self.pre_generated(
                number_of_elements,
                after,
            ),
            self.can_clear() == self.wf(),
            self.clears(after) == self.cleared(after),
    {
    }
}

impl<T, R> SharedSequenceBehavior for Sequence<
    T,
    WithoutInitialElements,
    WithTransitionFunction<R>,
> where R: for <'a>Fn(AliveElementsPart<'a, T>, usize) -> T {
    open spec fn can_pre_generate(&self, number_of_elements: usize) -> bool {
        self.accepts_pre_generation(number_of_elements)
    }

    open spec fn pre_generates(&self, number_of_elements: usize, after: &Self) -> bool {
        self.pre_generated(number_of_elements, after)
    }

    open spec fn can_clear(&self) -> bool {
        self.wf()
    }

    open spec fn clears(&self, after: &Self) -> bool {
        self.cleared(after)
    }

    fn pre_generate(self, number_of_elements: usize) -> (sequence: Self)
        ensures
            self.pre_generated(number_of_elements, &sequence),
    {
        let mut sequence = self;
        if number_of_elements != 0 {
            sequence.generate_nth_element(number_of_elements - 1);
        }
        sequence
    }

    fn clear(&mut self)
        ensures
            old(self).cleared(final(self)),
    {
        self.alive_elements = Vec::new();
        proof {
            assert(self@ =~= old(self)@.take(0));
        }
    }
}

impl<T, R> Sequence<T, WithoutInitialElements, WithTransitionFunction<R>> where
    R: for <'a>Fn(AliveElementsPart<'a, T>, usize) -> T,
 {
    /// What the shared behavior of sequences says of a sequence without
    /// initial elements.
    pub proof fn lemma_shared_behavior(&self, number_of_elements: usize, after: &Self)
        ensures
            self.can_pre_generate(number_of_elements) == self.accepts_pre_generation(
                number_of_elements,
            ),
            self.pre_generates(number_of_elements, after) == self.pre_generated(
                number_of_elements,
                after,
            ),
            self.can_clear() == self.wf(),
            self.clears(after) == self.cleared(after),
    {
    }
}

} // verus!
