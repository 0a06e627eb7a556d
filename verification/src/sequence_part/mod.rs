//! Parts of a sequence: read-only or generating windows over its elements.
//!
//! A part is either the alive elements part, which shows everything that the
//! sequence has generated so far, or a range part, which shows the window
//! `[start, end)`. The alive elements part and the immutable range part never
//! generate; the mutable range part generates what is asked of it.
//!
//! Every part can be read as a stream, with `next`: it has a cursor of its
//! own for that.

pub mod error;
pub mod states;
pub mod types;

use self::states::{AliveElements, Range};
use self::types::{
    AliveElementsPart, ParentSequenceRef, ParentSequenceRefMut, RangePart, RangePartImmut,
    RangePartMut,
};
use crate::sequence::generation::accepts_through;
use crate::sequence::states::{InitialElementsState, WithTransitionFunction};
use crate::sequence::Sequence;
use vstd::prelude::*;

verus! {

/// A part of a sequence: the state `P` says which part, `S` is the borrow of
/// the parent that the part reads from.
pub struct SequencePart<P, S> {
    part: P,
    parent_sequence: S,
    iter_index: usize,
}

impl<P, S> SequencePart<P, S> {
    /// The state of the part.
    pub closed spec fn state(&self) -> P {
        self.part
    }

    /// The borrow of the parent that the part holds.
    pub closed spec fn parent_handle(&self) -> S {
        self.parent_sequence
    }

    /// The position of the part's cursor: how many calls of `next` have
    /// advanced it since it last stood at the start.
    pub closed spec fn cursor(&self) -> usize {
        self.iter_index
    }
}

/// Once a part is done with, so is the borrow of the parent that it holds:
/// what the part has made of the parent is what the parent is from then on.
pub proof fn lemma_parent_resolved<P, S>(part: SequencePart<P, S>)
    requires
        has_resolved(part),
    ensures
        has_resolved(part.parent_handle()),
{
}

/// `element` is what cloning `found` gives: a clone of the element that was
/// found, or `None` where none was.
pub open spec fn is_clone_of<T: Clone>(element: Option<T>, found: Option<&T>) -> bool {
    match found {
        Some(found) => element is Some && cloned(*found, element.unwrap()),
        None => element is None,
    }
}

/// Shared behavior between range part
/// and alive elements part.
pub trait SharedSequencePartBehavior<T>: Sized {
    /// The number of elements that the part stands for.
    spec fn spec_len(&self) -> nat;

    /// The alive elements of the parent sequence.
    spec fn parent_elements(&self) -> Seq<T>;

    /// Returns the length of the sequence part.
    fn len(&self) -> (len: usize)
        ensures
            len == self.spec_len(),
    ;

    /// Checks if the sequence part is empty.
    fn is_empty(&self) -> (empty: bool)
        ensures
            empty == (self.spec_len() == 0),
    {
        self.len() == 0
    }

    /// Returns a read-only part that shows the alive elements of the parent
    /// sequence, with its cursor at the start.
    fn parent_sequence(&self) -> (parent: AliveElementsPart<'_, T>)
        ensures
            parent.is_view_of(self.parent_elements()),
    ;
}

impl<'a, T> AliveElementsPart<'a, T> {
    /// The elements that the part shows: all that were alive when it was made.
    pub open spec fn view(&self) -> Seq<T> {
        self.parent_handle()@
    }

    /// The cursor stands at an alive element or just behind the last.
    pub open spec fn wf(&self) -> bool {
        self.cursor() <= self@.len()
    }

    /// Whether the part shows exactly the elements `elements` and its cursor
    /// stands at the start.
    pub open spec fn is_view_of(&self, elements: Seq<T>) -> bool {
        &&& self@ == elements
        &&& self.cursor() == 0
    }

    /// The element at `index`, if it is alive.
    pub open spec fn element_at(&self, index: usize) -> Option<&T> {
        if index < self@.len() {
            Some(&self@[index as int])
        } else {
            None
        }
    }

    /// Create a new instance that represents
    /// the alive elements part of a sequence.
    pub fn new(parent_sequence: ParentSequenceRef<'a, T>) -> (part: Self)
        ensures
            part.is_view_of(parent_sequence@),
    {
        Self { parent_sequence, part: AliveElements, iter_index: 0 }
    }

    /// Checks if the nth element is alive.
    pub fn nth_element_is_alive(&self, index: usize) -> (alive: bool)
        ensures
            alive == (index < self@.len()),
    {
        index < self.parent_sequence.len()
    }

    /// Returns the nth element of the alive elements part, or `None` where it
    /// is not alive. Nothing is generated.
    pub fn nth_element(&self, index: usize) -> (element: Option<&T>)
        ensures
            element == self.element_at(index),
    {
        if index < self.parent_sequence.len() {
            Some(&self.parent_sequence[index])
        } else {
            None
        }
    }

    /// Returns the first element of the alive elements part.
    pub fn first_element(&self) -> (element: Option<&T>)
        ensures
            element == self.element_at(0),
    {
        self.nth_element(0)
    }

    /// Returns the last element of the alive elements part, or `None` where
    /// nothing is alive.
    pub fn last_element(&self) -> (element: Option<&T>)
        ensures
            element == (if self@.len() > 0 {
                Some(&self@.last())
            } else {
                None
            }),
    {
        let len = self.len();
        if len == 0 {
            None
        } else {
            self.nth_element(len - 1)
        }
    }
}

impl<'a, T: Clone> AliveElementsPart<'a, T> {
    /// Gives a clone of the element under the cursor and moves the cursor on.
    /// Behind the last element it gives `None` and moves the cursor back to
    /// the start.
    pub fn next(&mut self) -> (element: Option<T>)
        requires
            old(self).wf(),
        ensures
            final(self).wf(),
            final(self).parent_handle() == old(self).parent_handle(),
            is_clone_of(element, old(self).element_at(old(self).cursor())),
            old(self).cursor() == old(self)@.len() ==> final(self).cursor() == 0,
            old(self).cursor() != old(self)@.len() ==> final(self).cursor() == old(self).cursor()
                + 1,
    {
        let iter_index = self.iter_index;
        if iter_index == self.len() {
            self.iter_index = 0;
            return None;
        }
        self.iter_index += 1;
        self.nth_element(iter_index).cloned()
    }
}

impl<P> RangePart<P> {
    /// Checks if the element is in range.
    pub fn nth_element_is_in_range(&self, index: usize) -> (in_range: bool)
        ensures
            in_range == self.state().contains(index as int),
    {
        self.part.nth_element_is_in_range(index)
    }
}

impl<'a, T> RangePartImmut<'a, T> {
    /// The elements of the window, by their place in it.
    pub open spec fn view(&self) -> Seq<T> {
        self.parent_handle()@.subrange(self.state().start() as int, self.state().end() as int)
    }

    /// The window lies inside the alive elements of the parent, and the
    /// cursor has not counted beyond its end.
    pub open spec fn wf(&self) -> bool {
        &&& self.state().start() <= self.state().end() <= self.parent_handle()@.len()
        &&& self.cursor() <= self.state().end()
    }

    /// The element at `index` places behind the start of the range, if that
    /// place is inside the range.
    pub open spec fn element_at(&self, index: usize) -> Option<&T> {
        if index < self@.len() {
            Some(&self@[index as int])
        } else {
            None
        }
    }

    /// Create a new instance that represents an immutable range of a sequence.
    pub(crate) fn new_range(
        parent_sequence: ParentSequenceRef<'a, T>,
        start: usize,
        end: usize,
    ) -> (part: Self)
        requires
            start <= end <= parent_sequence@.len(),
        ensures
            part.wf(),
            part.state().start() == start,
            part.state().end() == end,
            part.parent_handle() == parent_sequence,
            part.cursor() == 0,
    {
        Self { part: Range::new(start, end), parent_sequence, iter_index: 0 }
    }

    /// Returns the nth element of the immutable range part: the element of
    /// the parent at `index` places behind the start of the range, or `None`
    /// where that place is outside the range. Nothing is generated.
    pub fn nth_element(&self, index: usize) -> (element: Option<&T>)
        requires
            self.wf(),
        ensures
            element == self.element_at(index),
    {
        match index.checked_add(self.part.start()) {
            None => None,
            Some(index) => {
                if !self.nth_element_is_in_range(index) {
                    return None;
                }
                Some(&self.parent_sequence[index])
            },
        }
    }

    /// Returns the first element of the immutable range part.
    pub fn first_element(&mut self) -> (element: Option<&T>)
        requires
            old(self).wf(),
        ensures
            *final(self) == *old(self),
            element == old(self).element_at(0),
    {
        self.nth_element(0)
    }

    /// Returns the last element of the immutable range part, or `None` where
    /// the range is empty.
    pub fn last_element(&mut self) -> (element: Option<&T>)
        requires
            old(self).wf(),
        ensures
            *final(self) == *old(self),
            element == (if old(self)@.len() > 0 {
                Some(&old(self)@.last())
            } else {
                None
            }),
    {
        let len = self.len();
        if len == 0 {
            None
        } else {
            self.nth_element(len - 1)
        }
    }
}

impl<'a, T: Clone> RangePartImmut<'a, T> {
    /// Gives a clone of the element of the window under the cursor and moves
    /// the cursor on. Behind the last element of the window it gives `None`.
    ///
    /// The cursor counts the calls and goes back to the start at the call
    /// that finds it at `end`: a window that starts at 0 is given anew after
    /// one `None`, a window that starts later after `start` more of them.
    pub fn next(&mut self) -> (element: Option<T>)
        requires
            old(self).wf(),
        ensures
            final(self).wf(),
            final(self).state() == old(self).state(),
            final(self).parent_handle() == old(self).parent_handle(),
            is_clone_of(element, old(self).element_at(old(self).cursor())),
            old(self).cursor() == old(self).state().end() ==> final(self).cursor() == 0,
            old(self).cursor() != old(self).state().end() ==> final(self).cursor() == old(self).cursor()
                + 1,
    {
        let iter_index = self.iter_index;
        if iter_index == self.part.end() {
            self.iter_index = 0;
            return None;
        }
        self.iter_index += 1;
        self.nth_element(iter_index).cloned()
    }
}

impl<'a, T, I: InitialElementsState, R> RangePartMut<'a, T, I, R> where
    R: for <'b>Fn(AliveElementsPart<'b, T>, usize) -> T,
 {
    /// The parent sequence as the part holds it now.
    pub open spec fn parent(&self) -> Sequence<T, I, WithTransitionFunction<R>> {
        *self.parent_handle()
    }

    /// The parent is well formed, and the cursor has not counted beyond the
    /// end of the range.
    pub open spec fn wf(&self) -> bool {
        &&& self.state().start() <= self.state().end()
        &&& self.cursor() <= self.state().end()
        &&& self.parent().wf()
    }

    /// The index in the parent of the element at `index` places behind the
    /// start of the range.
    pub open spec fn parent_index(&self, index: usize) -> int {
        self.state().start() + index
    }

    /// The transition function of the parent accepts the calls that asking
    /// this part for its nth element, for `index`, makes of it.
    pub open spec fn can_generate(&self, index: usize) -> bool {
        self.state().contains(self.parent_index(index)) ==> accepts_through(
            self.parent().rule(),
            self.parent()@,
            self.parent_index(index) as nat,
        )
    }

    /// The element of the parent at `index` places behind the start of the
    /// range, if that place is inside the range. It says nothing of an
    /// element that is not alive.
    pub open spec fn element_at(&self, index: usize) -> Option<&T> {
        if self.state().contains(self.parent_index(index)) {
            Some(&self.parent()@[self.parent_index(index)])
        } else {
            None
        }
    }

    /// `after` is what asking this part for its nth element, for `index`,
    /// makes of it. Inside the range the parent generates through the
    /// element; outside the parent stays as it is. The range of the part
    /// stays as it is.
    pub open spec fn generates(&self, index: usize, after: &Self) -> bool {
        &&& after.state() == self.state()
        &&& if self.state().contains(self.parent_index(index)) {
            &&& self.parent().generates_through(self.parent_index(index) as nat, &after.parent())
            &&& after.parent().cursor() == self.parent().cursor()
        } else {
            after.parent() == self.parent()
        }
    }

    /// Creates a new instance that represents a mutable range of a sequence.
    pub(crate) fn new_range_mut(
        parent_sequence: ParentSequenceRefMut<'a, T, I, R>,
        start: usize,
        end: usize,
    ) -> (part: Self)
        requires
            start <= end,
            old(parent_sequence).wf(),
        ensures
            part.wf(),
            part.state().start() == start,
            part.state().end() == end,
            part.cursor() == 0,
            part.parent() == *old(parent_sequence),
            *final(parent_sequence) == *final(part.parent_handle()),
    {
        Self { parent_sequence, part: Range::new(start, end), iter_index: 0 }
    }

    /// Returns the nth element of the mutable range part: the element of the
    /// parent at `index` places behind the start of the range, generated if
    /// it was not alive, or `None` where that place is outside the range.
    pub fn nth_element(&mut self, index: usize) -> (element: Option<&T>)
        requires
            old(self).wf(),
            old(self).can_generate(index),
        ensures
            final(self).wf(),
            final(self).cursor() == old(self).cursor(),
            *final(final(self).parent_handle()) == *final(old(self).parent_handle()),
            old(self).generates(index, final(self)),
            element == final(self).element_at(index),
    {
        match index.checked_add(self.part.start()) {
            None => None,
            Some(index) => {
                if !self.nth_element_is_in_range(index) {
                    return None;
                }
                Some(self.parent_sequence.nth_element(index))
            },
        }
    }

    /// Returns the first element of the mutable range part.
    pub fn first_element(&mut self) -> (element: Option<&T>)
        requires
            old(self).wf(),
            old(self).can_generate(0),
        ensures
            final(self).wf(),
            final(self).cursor() == old(self).cursor(),
            *final(final(self).parent_handle()) == *final(old(self).parent_handle()),
            old(self).generates(0, final(self)),
            element == final(self).element_at(0),
    {
        self.nth_element(0)
    }

    /// Returns the last element of the mutable range part, or `None` where
    /// the range is empty.
    pub fn last_element(&mut self) -> (element: Option<&T>)
        requires
            old(self).wf(),
            old(self).state().spec_len() > 0 ==> old(self).can_generate(
                (old(self).state().spec_len() - 1) as usize,
            ),
        ensures
            final(self).wf(),
            final(self).cursor() == old(self).cursor(),
            *final(final(self).parent_handle()) == *final(old(self).parent_handle()),
            old(self).state().spec_len() > 0 ==> old(self).generates(
                (old(self).state().spec_len() - 1) as usize,
                final(self),
            ),
            old(self).state().spec_len() > 0 ==> element == final(self).element_at(
                (old(self).state().spec_len() - 1) as usize,
            ),
            old(self).state().spec_len() == 0 ==> *final(self) == *old(self),
            old(self).state().spec_len() == 0 ==> element is None,
    {
        let len = self.len();
        if len == 0 {
            None
        } else {
            self.nth_element(len - 1)
        }
    }

    /// What the shared behavior of parts says of a mutable range part.
    pub proof fn lemma_shared_behavior(&self)
        ensures
            self.spec_len() == self.state().spec_len(),
            self.parent_elements() == self.parent()@,
    {
    }
}

impl<'a, T: Clone, I: InitialElementsState, R> RangePartMut<'a, T, I, R> where
    R: for <'b>Fn(AliveElementsPart<'b, T>, usize) -> T,
 {
    /// Gives a clone of the element of the window under the cursor, which it
    /// generates if it was not alive, and moves the cursor on. Behind the
    /// last element of the window it gives `None`.
    ///
    /// The cursor counts the calls and goes back to the start at the call
    /// that finds it at `end`: a window that starts at 0 is given anew after
    /// one `None`, a window that starts later after `start` more of them.
    pub fn next(&mut self) -> (element: Option<T>)
        requires
            old(self).wf(),
            old(self).cursor() != old(self).state().end() ==> old(self).can_generate(
                old(self).cursor(),
            ),
        ensures
            final(self).wf(),
            final(self).state() == old(self).state(),
            *final(final(self).parent_handle()) == *final(old(self).parent_handle()),
            old(self).cursor() == old(self).state().end() ==> element is None,
            old(self).cursor() == old(self).state().end() ==> final(self).cursor() == 0,
            old(self).cursor() == old(self).state().end() ==> final(self).parent() == old(self).parent(),
            old(self).cursor() != old(self).state().end() ==> final(self).cursor() == old(self).cursor()
                + 1,
            old(self).cursor() != old(self).state().end() ==> old(self).generates(
                old(self).cursor(),
                final(self),
            ),
            old(self).cursor() != old(self).state().end() ==> is_clone_of(
                element,
                final(self).element_at(old(self).cursor()),
            ),
    {
        let iter_index = self.iter_index;
        if iter_index == self.part.end() {
            self.iter_index = 0;
            return None;
        }
        self.iter_index += 1;
        self.nth_element(iter_index).cloned()
    }
}

impl<'a, T> SharedSequencePartBehavior<T> for AliveElementsPart<'a, T> {
    open spec fn spec_len(&self) -> nat {
        self@.len()
    }

    open spec fn parent_elements(&self) -> Seq<T> {
        self@
    }

    fn len(&self) -> (len: usize) {
        self.parent_sequence.len()
    }

    fn parent_sequence(&self) -> (parent: AliveElementsPart<'_, T>) {
        AliveElementsPart::new(self.parent_sequence)
    }
}

impl<'a, T> SharedSequencePartBehavior<T> for RangePartImmut<'a, T> {
    open spec fn spec_len(&self) -> nat {
        self.state().spec_len()
    }

    open spec fn parent_elements(&self) -> Seq<T> {
        self.parent_handle()@
    }

    fn len(&self) -> (len: usize) {
        self.part.end() - self.part.start()
    }

    fn parent_sequence(&self) -> (parent: AliveElementsPart<'_, T>) {
        AliveElementsPart::new(self.parent_sequence)
    }
}

impl<'a, T, I: InitialElementsState, R> SharedSequencePartBehavior<T> for RangePartMut<
    'a,
    T,
    I,
    R,
> where R: for <'b>Fn(AliveElementsPart<'b, T>, usize) -> T {
    open spec fn spec_len(&self) -> nat {
        self.state().spec_len()
    }

    open spec fn parent_elements(&self) -> Seq<T> {
        self.parent()@
    }

    fn len(&self) -> (len: usize) {
        self.part.end() - self.part.start()
    }

    fn parent_sequence(&self) -> (parent: AliveElementsPart<'_, T>) {
        self.parent_sequence.alive_elements()
    }
}

} // verus!
