//! What it means for the elements of a sequence to be generated by a
//! transition function, and the laws of generation that follow from it.
//!
//! A transition function is any `Fn(AliveElementsPart<'_, T>, usize) -> T`. It
//! is handed a part that shows the elements generated so far and the index of
//! the element to generate. What it may return is what its own `ensures` lets
//! through; what it must be given is what its own `requires` asks for. The
//! definitions here lift the two to whole stores of elements.

use crate::sequence_part::types::AliveElementsPart;
use vstd::prelude::*;

verus! {

/// `element` is a result that `rule` may give for the index `alive.len()` when
/// it is shown exactly the elements `alive`.
pub open spec fn produces<T, R>(rule: R, alive: Seq<T>, element: T) -> bool where
    R: for <'a>Fn(AliveElementsPart<'a, T>, usize) -> T,
 {
    exists|part: AliveElementsPart<T>, index: usize|
        part.is_view_of(alive) && index == alive.len() && #[trigger] rule.ensures(
            (part, index),
            element,
        )
}

/// Every element of `elements` from the index `from` on is one that `rule`
/// produces from the elements before it.
pub open spec fn generated_from<T, R>(rule: R, from: nat, elements: Seq<T>) -> bool where
    R: for <'a>Fn(AliveElementsPart<'a, T>, usize) -> T,
 {
    forall|k: int|
        from <= k < elements.len() ==> produces(rule, #[trigger] elements.take(k), elements[k])
}

/// `after` continues `before`: it begins with `before`, and every element
/// behind that beginning is one that `rule` produces from the elements before
/// it.
pub open spec fn extends<T, R>(rule: R, before: Seq<T>, after: Seq<T>) -> bool where
    R: for <'a>Fn(AliveElementsPart<'a, T>, usize) -> T,
 {
    &&& before.len() <= after.len()
    &&& after.take(before.len() as int) =~= before
    &&& generated_from(rule, before.len(), after)
}

/// What generating through `index` makes of the elements `before`: nothing
/// new where `index` is alive already, else a continuation that ends with the
/// element at `index`.
pub open spec fn generated_through<T, R>(
    rule: R,
    before: Seq<T>,
    index: nat,
    after: Seq<T>,
) -> bool where R: for <'a>Fn(AliveElementsPart<'a, T>, usize) -> T {
    &&& extends(rule, before, after)
    &&& after.len() == if index < before.len() {
        before.len()
    } else {
        index + 1
    }
}

/// `rule` accepts every call that generating through `index` can make of it,
/// starting from the elements `before`: each part that shows a continuation
/// of `before` with at most `index` elements, together with the number of
/// elements that the part shows.
pub open spec fn accepts_through<T, R>(rule: R, before: Seq<T>, index: nat) -> bool where
    R: for <'a>Fn(AliveElementsPart<'a, T>, usize) -> T,
 {
    forall|part: AliveElementsPart<T>, i: usize|
        part.cursor() == 0 && extends(rule, before, part@) && i == part@.len() && i <= index
            ==> #[trigger] rule.requires((part, i))
}

/// `rule` accepts whatever it is given.
pub open spec fn is_total<T, R>(rule: R) -> bool where
    R: for <'a>Fn(AliveElementsPart<'a, T>, usize) -> T,
 {
    forall|part: AliveElementsPart<T>, i: usize| #[trigger] rule.requires((part, i))
}

/// `rule` gives the index back: whatever it is shown, the element for an
/// index is the index.
pub open spec fn is_linear<R>(rule: R) -> bool where
    R: for <'a>Fn(AliveElementsPart<'a, usize>, usize) -> usize,
 {
    forall|part: AliveElementsPart<usize>, index: usize, element: usize| #[trigger]
        rule.ensures((part, index), element) ==> element == index
}

/// `rule` is a function of the elements it is shown and of the index: two
/// calls that are shown the same elements, for the same index, give the same
/// result.
pub open spec fn is_deterministic<T, R>(rule: R) -> bool where
    R: for <'a>Fn(AliveElementsPart<'a, T>, usize) -> T,
 {
    forall|one: AliveElementsPart<T>, other: AliveElementsPart<T>, i: usize, a: T, b: T|
        one@ == other@ && one.cursor() == 0 && other.cursor() == 0 && #[trigger] rule.ensures(
            (one, i),
            a,
        ) && #[trigger] rule.ensures((other, i), b) ==> a == b
}

/// A continuation of a continuation is a continuation.
pub proof fn lemma_extends_transitive<T, R>(rule: R, a: Seq<T>, b: Seq<T>, c: Seq<T>) where
    R: for <'a>Fn(AliveElementsPart<'a, T>, usize) -> T,

    requires
        extends(rule, a, b),
        extends(rule, b, c),
    ensures
        extends(rule, a, c),
{
    assert(c.take(a.len() as int) =~= b.take(a.len() as int));
    assert forall|k: int| a.len() <= k < c.len() implies produces(
        rule,
        #[trigger] c.take(k),
        c[k],
    ) by {
        if k < b.len() {
            assert(b.take(k) == c.take(k));
        }
    }
}

/// Appending an element that `rule` produces from a continuation gives a
/// continuation.
pub proof fn lemma_extends_push<T, R>(rule: R, before: Seq<T>, after: Seq<T>, element: T) where
    R: for <'a>Fn(AliveElementsPart<'a, T>, usize) -> T,

    requires
        extends(rule, before, after),
        produces(rule, after, element),
    ensures
        extends(rule, before, after.push(element)),
{
    let pushed = after.push(element);
    assert(pushed.take(after.len() as int) =~= after);
    assert forall|k: int| before.len() <= k < pushed.len() implies produces(
        rule,
        #[trigger] pushed.take(k),
        pushed[k],
    ) by {
        if k < after.len() {
            assert(pushed.take(k) =~= after.take(k));
        }
    }
}

/// What `rule` generated from the index `from` on stays generated by `rule`
/// from there on in every continuation.
pub proof fn lemma_generated_from_extends<T, R>(rule: R, from: nat, before: Seq<T>, after: Seq<T>) where
    R: for <'a>Fn(AliveElementsPart<'a, T>, usize) -> T,

    requires
        from <= before.len(),
        generated_from(rule, from, before),
        extends(rule, before, after),
    ensures
        generated_from(rule, from, after),
{
    assert forall|k: int| from <= k < after.len() implies produces(
        rule,
        #[trigger] after.take(k),
        after[k],
    ) by {
        if k < before.len() {
            assert(before.take(k) == after.take(k));
        }
    }
}

/// A rule that accepts the calls of generating through `index` accepts those
/// of generating through an earlier index, and does so from every
/// continuation of the elements it started from.
pub proof fn lemma_accepts_through_later<T, R>(
    rule: R,
    before: Seq<T>,
    index: nat,
    after: Seq<T>,
    earlier: nat,
) where R: for <'a>Fn(AliveElementsPart<'a, T>, usize) -> T
    requires
        accepts_through(rule, before, index),
        extends(rule, before, after),
        earlier <= index,
    ensures
        accepts_through(rule, after, earlier),
{
    assert forall|part: AliveElementsPart<T>, i: usize|
        part.cursor() == 0 && extends(rule, after, part@) && i == part@.len() && i
            <= earlier implies #[trigger] rule.requires((part, i)) by {
        lemma_extends_transitive(rule, before, after, part@);
    }
}

/// Generating through an index a second time changes nothing: what the first
/// generation left is what the second leaves.
pub proof fn lemma_generated_through_idempotent<T, R>(
    rule: R,
    before: Seq<T>,
    index: nat,
    once: Seq<T>,
    twice: Seq<T>,
) where R: for <'a>Fn(AliveElementsPart<'a, T>, usize) -> T
    requires
        generated_through(rule, before, index, once),
        generated_through(rule, once, index, twice),
    ensures
        twice == once,
{
}

/// Generation never removes or changes an element: the elements that were
/// alive before are alive after, at their indices, so the number of alive
/// elements never goes down.
pub proof fn lemma_generated_through_keeps<T, R>(
    rule: R,
    before: Seq<T>,
    index: nat,
    after: Seq<T>,
) where R: for <'a>Fn(AliveElementsPart<'a, T>, usize) -> T
    requires
        generated_through(rule, before, index, after),
    ensures
        before.len() <= after.len(),
        index < after.len(),
        forall|i: int| 0 <= i < before.len() ==> after[i] == before[i],
{
}

/// The elements of a sequence do not depend on the order in which they were
/// asked for. Two stores that begin with the same `from` initial elements and
/// were filled by the same deterministic rule, by whatever calls, agree at
/// every index that is alive in both: the shorter is the beginning of the
/// longer, and both are beginnings of the one ascending pass.
pub proof fn lemma_generation_is_canonical<T, R>(rule: R, from: nat, shorter: Seq<T>, longer: Seq<T>) where
    R: for <'a>Fn(AliveElementsPart<'a, T>, usize) -> T,

    requires
        is_deterministic(rule),
        from <= shorter.len() <= longer.len(),
        shorter.take(from as int) == longer.take(from as int),
        generated_from(rule, from, shorter),
        generated_from(rule, from, longer),
    ensures
        longer.take(shorter.len() as int) == shorter,
    decreases shorter.len(),
{
    if shorter.len() > from {
        let k = shorter.len() - 1;
        let head = shorter.take(k);
        assert(head.take(from as int) =~= shorter.take(from as int));
        assert forall|j: int| from <= j < head.len() implies produces(
            rule,
            #[trigger] head.take(j),
            head[j],
        ) by {
            assert(head.take(j) =~= shorter.take(j));
        }
        lemma_generation_is_canonical(rule, from, head, longer);
        // Both stores begin with `head`, and the rule, shown `head`, gives
        // one element only.
        assert(longer.take(k) == head);
        assert(longer[k] == shorter[k]);
        assert(longer.take(shorter.len() as int) =~= shorter);
    }
}

/// The element at an index is the same however it was reached: by asking for
/// it alone, by asking for a later one first, or by streaming from the start.
/// Two stores that begin with the same `from` initial elements and were
/// filled by the same deterministic rule hold the same element at every index
/// that is alive in both.
pub proof fn lemma_same_element<T, R>(rule: R, from: nat, one: Seq<T>, other: Seq<T>, index: int) where
    R: for <'a>Fn(AliveElementsPart<'a, T>, usize) -> T,

    requires
        is_deterministic(rule),
        from <= one.len(),
        from <= other.len(),
        one.take(from as int) == other.take(from as int),
        generated_from(rule, from, one),
        generated_from(rule, from, other),
        0 <= index < one.len(),
        index < other.len(),
    ensures
        one[index] == other[index],
{
    if one.len() <= other.len() {
        lemma_generation_is_canonical(rule, from, one, other);
    } else {
        lemma_generation_is_canonical(rule, from, other, one);
    }
}

/// What a linear rule generates from nothing is the indices themselves.
pub proof fn lemma_linear_elements<R>(rule: R, elements: Seq<usize>, index: int) where
    R: for <'a>Fn(AliveElementsPart<'a, usize>, usize) -> usize,

    requires
        is_linear(rule),
        generated_from(rule, 0, elements),
        0 <= index < elements.len(),
    ensures
        elements[index] == index,
{
    assert(produces(rule, elements.take(index), elements[index]));
}

} // verus!
