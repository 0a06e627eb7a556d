//! Names for the parts of a sequence.

use super::error::RangeError;
use super::states::{AliveElements, Range};
use super::SequencePart;
use crate::sequence::states::WithTransitionFunction;
use crate::sequence::Sequence;
use vstd::prelude::*;

verus! {

/// A shared borrow of the elements that a sequence holds alive.
///
/// The read-only parts borrow the store of their parent and not the parent
/// itself, so that the transition function, which is handed such a part, has a
/// type that does not depend on itself.
pub type ParentSequenceRef<'a, T> = &'a Vec<T>;

/// An exclusive borrow of the parent sequence.
pub type ParentSequenceRefMut<'a, T, I, R> = &'a mut Sequence<T, I, WithTransitionFunction<R>>;

/// Alive elements part.
pub type AliveElementsPart<'a, T> = SequencePart<AliveElements, ParentSequenceRef<'a, T>>;

/// Generic range part.
pub type RangePart<P> = SequencePart<Range, P>;

/// Immutable range part type.
pub type RangePartImmut<'a, T> = RangePart<ParentSequenceRef<'a, T>>;

/// Mutable range part type.
pub type RangePartMut<'a, T, I, R> = RangePart<ParentSequenceRefMut<'a, T, I, R>>;

/// Range part result that is returned when creating immutable ranges.
pub type RangePartImmutResult<'a, T> = Result<RangePartImmut<'a, T>, RangeError>;

/// Range part result that is returned when creating mutable ranges.
pub type RangePartMutResult<'a, T, I, R> = Result<RangePartMut<'a, T, I, R>, RangeError>;

} // verus!
