//! A lazy sequence generator.
//!
//! A sequence is described by zero or more initial elements and a transition
//! function that derives the element at an index from the elements before it.
//! Elements are generated on demand, in ascending order, and kept, so that no
//! element is ever computed twice.
//!
//! Sequences are not limited to numbers: an element can be of any type.

pub mod error;
pub mod prelude;
pub mod sequence;
pub mod sequence_part;
