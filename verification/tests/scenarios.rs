//! Whole sequences, from configuration to the elements they give.

use seqgen::prelude::{
    seq_with_initial_elements, seq_without_initial_elements, RangeError, Sequence,
    SharedSequenceBehavior, SharedSequencePartBehavior,
};
use seqgen::sequence_part::types::AliveElementsPart;

fn fibonacci(alive: AliveElementsPart<'_, u128>, index: usize) -> u128 {
    alive.nth_element(index - 1).unwrap() + alive.nth_element(index - 2).unwrap()
}

fn checked_fibonacci(alive: AliveElementsPart<'_, Option<u128>>, index: usize) -> Option<u128> {
    let last = (*alive.nth_element(index - 1).unwrap())?;
    let before_last = (*alive.nth_element(index - 2).unwrap())?;
    last.checked_add(before_last)
}

fn concatenation(alive: AliveElementsPart<'_, String>, index: usize) -> String {
    let mut next = String::from(alive.nth_element(index - 2).unwrap().as_str());
    next.push_str(alive.nth_element(index - 1).unwrap());
    next
}

#[test]
fn linear_sequence_gives_the_index() {
    let mut seq = Sequence::linear_seq();
    for index in [0usize, 1, 2, 17, 5, 1000, 999, 3] {
        assert_eq!(*seq.nth_element(index), index);
    }
    assert_eq!(seq.alive_elements_len(), 1001);
}

#[test]
fn linear_sequence_starts_empty() {
    let seq = Sequence::linear_seq();
    assert_eq!(seq.alive_elements_len(), 0);
    assert!(!seq.nth_element_is_alive(0));
    assert_eq!(seq.nth_element_without_generation(0), None);
}

#[test]
fn fibonacci_tenth_element_is_55() {
    let mut seq = Sequence::new().initial_elements(vec![0, 1_u128]).transition_function(fibonacci);
    assert_eq!(*seq.nth_element(10), 55);
    assert_eq!(seq.alive_elements_len(), 11);
    let expected: [u128; 11] = [0, 1, 1, 2, 3, 5, 8, 13, 21, 34, 55];
    for (index, element) in expected.iter().enumerate() {
        assert_eq!(seq.nth_element_without_generation(index), Some(element));
    }
}

#[test]
fn fibonacci_fits_128_bits_through_index_186_and_no_further() {
    let mut seq = seq_with_initial_elements(vec![Some(0), Some(1_u128)], checked_fibonacci);
    assert!(seq.nth_element(185).is_some());
    assert_eq!(*seq.nth_element(185), Some(205697230343233228174223751303346572685));
    assert_eq!(*seq.nth_element(186), Some(332825110087067562321196029789634457848));
    assert_eq!(*seq.nth_element(187), None);
    assert_eq!(*seq.nth_element(189), None);
}

#[test]
fn fibonacci_pre_generates_185_elements_without_overflow() {
    let seq = Sequence::new()
        .initial_elements(vec![0, 1_u128])
        .transition_function(fibonacci)
        .pre_generate(185);
    assert_eq!(seq.alive_elements_len(), 187);
    assert_eq!(
        seq.alive_elements().last_element(),
        Some(&332825110087067562321196029789634457848)
    );
}

#[test]
fn concatenation_range_of_five() {
    let initial_elements = vec![String::from("x"), String::from("y")];
    let mut seq = Sequence::new().initial_elements(initial_elements).transition_function(concatenation);
    let mut range = seq.range_mut(0, 5).unwrap();
    let mut elements = Vec::new();
    while let Some(element) = range.next() {
        elements.push(element);
    }
    assert_eq!(elements, vec!["x", "y", "xy", "yxy", "xyyxy"]);
    assert_eq!(seq.alive_elements_len(), 5);
}

#[test]
fn concatenation_immutable_range_after_generating() {
    let initial_elements = vec![String::from("x"), String::from("y")];
    let mut seq = seq_with_initial_elements(initial_elements, concatenation);
    assert_eq!(seq.range(0, 5).err(), Some(RangeError::DeadRange));
    seq.generate(3);
    let mut range = seq.range(0, 5).unwrap();
    assert_eq!(range.len(), 5);
    let mut elements = Vec::new();
    while let Some(element) = range.next() {
        elements.push(element);
    }
    assert_eq!(elements, vec!["x", "y", "xy", "yxy", "xyyxy"]);
}

#[test]
fn clear_leaves_the_initial_elements() {
    let mut seq = seq_with_initial_elements(vec![0, 1_u128], fibonacci);
    seq.generate(20);
    assert_eq!(seq.alive_elements_len(), 22);
    seq.clear();
    assert_eq!(seq.alive_elements_len(), 2);
    assert_eq!(seq.initial_elements_len(), 2);
    assert_eq!(seq.nth_element_without_generation(0), Some(&0));
    assert_eq!(seq.nth_element_without_generation(1), Some(&1));
    assert_eq!(seq.nth_element_without_generation(2), None);
    assert_eq!(*seq.nth_element(10), 55);
}

#[test]
fn clear_without_initial_elements_leaves_nothing() {
    let mut seq = Sequence::linear_seq();
    seq.generate(20);
    assert_eq!(seq.alive_elements_len(), 20);
    seq.clear();
    assert_eq!(seq.alive_elements_len(), 0);
    assert_eq!(*seq.nth_element(4), 4);
}

#[test]
fn previous_element_is_absent_at_index_0() {
    let mut seq = seq_without_initial_elements(|alive: AliveElementsPart<'_, (usize, bool)>, index| {
        let previous_is_absent = match index.checked_sub(1) {
            Some(previous) => alive.nth_element(previous).is_none(),
            None => alive.last_element().is_none() && alive.nth_element(index).is_none(),
        };
        (alive.len(), previous_is_absent)
    });
    assert_eq!(*seq.nth_element(0), (0, true));
    assert_eq!(*seq.nth_element(1), (1, false));
    assert_eq!(*seq.nth_element(2), (2, false));
}

#[test]
fn rule_sees_all_earlier_elements_and_no_other() {
    let mut seq = seq_with_initial_elements(vec![7usize, 8, 9], |alive: AliveElementsPart<'_, usize>, index| {
        assert_eq!(alive.len(), index);
        assert!(alive.nth_element_is_alive(index - 1));
        assert!(!alive.nth_element_is_alive(index));
        assert_eq!(alive.nth_element(index), None);
        assert_eq!(alive.first_element(), Some(&7));
        *alive.last_element().unwrap() + 1
    });
    assert_eq!(*seq.nth_element(6), 13);
    assert_eq!(seq.alive_elements_len(), 7);
}
