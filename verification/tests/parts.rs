//! The parts of a sequence: what they show, what they generate, how they
//! stream.

use seqgen::prelude::{
    seq_with_initial_elements, RangeError, Sequence, SharedSequenceBehavior,
    SharedSequencePartBehavior,
};
use seqgen::sequence::sequence_iter::SequenceIter;
use seqgen::sequence_part::types::AliveElementsPart;

fn doubled(alive: AliveElementsPart<'_, u32>, _index: usize) -> u32 {
    alive.last_element().unwrap() * 2
}

#[test]
fn alive_part_shows_what_is_alive() {
    let mut seq = seq_with_initial_elements(vec![1u32], doubled);
    seq.generate(4);
    let alive = seq.alive_elements();
    assert_eq!(alive.len(), 5);
    assert!(!alive.is_empty());
    assert!(alive.nth_element_is_alive(4));
    assert!(!alive.nth_element_is_alive(5));
    assert_eq!(alive.nth_element(0), Some(&1));
    assert_eq!(alive.nth_element(3), Some(&8));
    assert_eq!(alive.nth_element(5), None);
    assert_eq!(alive.nth_element(usize::MAX), None);
    assert_eq!(alive.first_element(), Some(&1));
    assert_eq!(alive.last_element(), Some(&16));
    assert_eq!(seq.alive_elements_len(), 5);
}

#[test]
fn alive_part_of_nothing_is_empty() {
    let seq = Sequence::linear_seq();
    let alive = seq.alive_elements();
    assert_eq!(alive.len(), 0);
    assert!(alive.is_empty());
    assert_eq!(alive.first_element(), None);
    assert_eq!(alive.last_element(), None);
    assert_eq!(alive.nth_element(0), None);
}

#[test]
fn alive_part_streams_and_starts_anew() {
    let mut seq = seq_with_initial_elements(vec![1u32], doubled);
    seq.generate(2);
    let mut alive = seq.alive_elements();
    assert_eq!(alive.next(), Some(1));
    assert_eq!(alive.next(), Some(2));
    assert_eq!(alive.next(), Some(4));
    assert_eq!(alive.next(), None);
    assert_eq!(alive.next(), Some(1));
    assert_eq!(alive.next(), Some(2));
    assert_eq!(seq.alive_elements_len(), 3);
}

#[test]
fn alive_part_of_nothing_streams_nothing() {
    let seq = Sequence::linear_seq();
    let mut alive = seq.alive_elements();
    assert_eq!(alive.next(), None);
    assert_eq!(alive.next(), None);
}

#[test]
fn parent_of_a_part_shows_the_alive_elements() {
    let mut seq = Sequence::linear_seq();
    seq.generate(6);
    let alive = seq.alive_elements();
    assert_eq!(alive.parent_sequence().len(), 6);
    assert_eq!(alive.parent_sequence().last_element(), Some(&5));
    let range = seq.range(2, 4).unwrap();
    assert_eq!(range.len(), 2);
    assert_eq!(range.parent_sequence().len(), 6);
    assert_eq!(range.parent_sequence().nth_element(5), Some(&5));
    let mut range = seq.range_mut(4, 9).unwrap();
    assert_eq!(range.parent_sequence().len(), 6);
    assert_eq!(range.last_element(), Some(&8));
    assert_eq!(range.parent_sequence().len(), 9);
    assert_eq!(range.parent_sequence().nth_element(8), Some(&8));
}

#[test]
fn immutable_range_reads_inside_its_window() {
    let mut seq = Sequence::linear_seq();
    seq.generate(10);
    let mut range = seq.range(3, 7).unwrap();
    assert_eq!(range.len(), 4);
    assert!(!range.is_empty());
    assert_eq!(range.nth_element(0), Some(&3));
    assert_eq!(range.nth_element(3), Some(&6));
    assert_eq!(range.nth_element(4), None);
    assert_eq!(range.nth_element(usize::MAX), None);
    assert_eq!(range.first_element(), Some(&3));
    assert_eq!(range.last_element(), Some(&6));
    assert!(range.nth_element_is_in_range(3));
    assert!(range.nth_element_is_in_range(6));
    assert!(!range.nth_element_is_in_range(7));
    assert!(!range.nth_element_is_in_range(2));
}

#[test]
fn immutable_range_may_be_empty() {
    let mut seq = Sequence::linear_seq();
    let mut range = seq.range(0, 0).unwrap();
    assert_eq!(range.len(), 0);
    assert!(range.is_empty());
    assert_eq!(range.first_element(), None);
    assert_eq!(range.last_element(), None);
    assert_eq!(range.next(), None);
    seq.generate(5);
    let mut range = seq.range(5, 5).unwrap();
    assert!(range.is_empty());
    assert_eq!(range.nth_element(0), None);
    assert_eq!(range.last_element(), None);
}

#[test]
fn immutable_range_does_not_generate() {
    let mut seq = Sequence::linear_seq();
    assert_eq!(seq.range(0, 1).err(), Some(RangeError::DeadRange));
    assert_eq!(seq.alive_elements_len(), 0);
    seq.generate(4);
    assert_eq!(seq.range(0, 5).err(), Some(RangeError::DeadRange));
    assert_eq!(seq.range(4, 5).err(), Some(RangeError::DeadRange));
    assert!(seq.range(0, 4).is_ok());
    assert!(seq.range(4, 4).is_ok());
    assert_eq!(seq.alive_elements_len(), 4);
}

#[test]
fn invalid_range_carries_its_ends() {
    let mut seq = Sequence::linear_seq();
    assert_eq!(seq.range(3, 2).err(), Some(RangeError::InvalidRange { start: 3, end: 2 }));
    assert_eq!(
        seq.range_mut(usize::MAX, 0).err(),
        Some(RangeError::InvalidRange { start: usize::MAX, end: 0 })
    );
    assert_eq!(seq.range(1, 0).err(), Some(RangeError::InvalidRange { start: 1, end: 0 }));
    assert_eq!(seq.alive_elements_len(), 0);
}

#[test]
fn immutable_range_streams_its_window() {
    let mut seq = Sequence::linear_seq();
    seq.generate(10);
    let mut range = seq.range(0, 3).unwrap();
    assert_eq!(range.next(), Some(0));
    assert_eq!(range.next(), Some(1));
    assert_eq!(range.next(), Some(2));
    assert_eq!(range.next(), None);
    assert_eq!(range.next(), Some(0));
}

#[test]
fn immutable_range_that_starts_late_starts_anew_after_more_calls() {
    let mut seq = Sequence::linear_seq();
    seq.generate(10);
    let mut range = seq.range(2, 5).unwrap();
    assert_eq!(range.next(), Some(2));
    assert_eq!(range.next(), Some(3));
    assert_eq!(range.next(), Some(4));
    assert_eq!(range.next(), None);
    assert_eq!(range.next(), None);
    assert_eq!(range.next(), None);
    assert_eq!(range.next(), Some(2));
}

#[test]
fn mutable_range_generates_what_is_asked_of_it() {
    let mut seq = seq_with_initial_elements(vec![1u32], doubled);
    let mut range = seq.range_mut(2, 6).unwrap();
    assert_eq!(range.len(), 4);
    assert_eq!(range.parent_sequence().len(), 1);
    assert_eq!(range.nth_element(1), Some(&8));
    assert_eq!(range.parent_sequence().len(), 4);
    assert_eq!(range.nth_element(4), None);
    assert_eq!(range.nth_element(usize::MAX), None);
    assert_eq!(range.parent_sequence().len(), 4);
    assert_eq!(range.first_element(), Some(&4));
    assert_eq!(range.parent_sequence().len(), 4);
    assert_eq!(range.last_element(), Some(&32));
    assert!(range.nth_element_is_in_range(5));
    assert!(!range.nth_element_is_in_range(6));
    assert_eq!(seq.alive_elements_len(), 6);
}

#[test]
fn making_a_mutable_range_generates_nothing() {
    let mut seq = Sequence::linear_seq();
    {
        let range = seq.range_mut(5, 50).unwrap();
        assert_eq!(range.len(), 45);
        assert!(!range.is_empty());
    }
    assert_eq!(seq.alive_elements_len(), 0);
    let mut range = seq.range_mut(7, 7).unwrap();
    assert!(range.is_empty());
    assert_eq!(range.first_element(), None);
    assert_eq!(range.last_element(), None);
    assert_eq!(range.next(), None);
    assert_eq!(seq.alive_elements_len(), 0);
}

#[test]
fn mutable_range_streams_and_generates() {
    let mut seq = Sequence::linear_seq();
    let mut range = seq.range_mut(1, 3).unwrap();
    assert_eq!(range.next(), Some(1));
    assert_eq!(range.parent_sequence().len(), 2);
    assert_eq!(range.next(), Some(2));
    assert_eq!(range.next(), None);
    assert_eq!(range.next(), None);
    assert_eq!(range.next(), Some(1));
    assert_eq!(seq.alive_elements_len(), 3);
}

#[test]
fn owned_stream_gives_the_alive_elements_and_no_more() {
    let mut seq = seq_with_initial_elements(vec![1u32], doubled);
    seq.generate(3);
    let mut iter = SequenceIter::new(seq);
    assert_eq!(iter.next(), Some(1));
    assert_eq!(iter.next(), Some(2));
    assert_eq!(iter.next(), Some(4));
    assert_eq!(iter.next(), Some(8));
    assert_eq!(iter.next(), None);
    assert_eq!(iter.next(), Some(1));
    let mut seq = iter.as_seq();
    assert_eq!(seq.alive_elements_len(), 4);
    assert_eq!(*seq.nth_element(4), 16);
}

#[test]
fn owned_stream_of_nothing_gives_nothing() {
    let mut iter = SequenceIter::new(Sequence::linear_seq());
    assert_eq!(iter.next(), None);
    assert_eq!(iter.next(), None);
    assert_eq!(iter.as_seq().alive_elements_len(), 0);
}

#[test]
fn pre_generate_counts_from_behind_the_initial_elements() {
    let seq = seq_with_initial_elements(vec![1u32, 3, 5], doubled).pre_generate(4);
    assert_eq!(seq.alive_elements_len(), 7);
    assert_eq!(seq.nth_element_without_generation(6), Some(&80));
    let seq = seq.pre_generate(2);
    assert_eq!(seq.alive_elements_len(), 7);
    let seq = seq.pre_generate(0);
    assert_eq!(seq.alive_elements_len(), 7);
    let seq = Sequence::linear_seq().pre_generate(4);
    assert_eq!(seq.alive_elements_len(), 4);
    assert_eq!(seq.nth_element_without_generation(3), Some(&3));
    let seq = Sequence::linear_seq().pre_generate(0);
    assert_eq!(seq.alive_elements_len(), 0);
}

#[test]
fn generate_counts_from_behind_the_alive_elements() {
    let mut seq = seq_with_initial_elements(vec![1u32, 3, 5], doubled);
    seq.generate(2);
    assert_eq!(seq.alive_elements_len(), 5);
    seq.generate(2);
    assert_eq!(seq.alive_elements_len(), 7);
    seq.generate(0);
    assert_eq!(seq.alive_elements_len(), 7);
    assert_eq!(seq.nth_element_without_generation(6), Some(&80));
    let mut seq = Sequence::linear_seq();
    seq.generate(0);
    assert_eq!(seq.alive_elements_len(), 0);
    seq.generate(1);
    assert_eq!(seq.alive_elements_len(), 1);
}
