//! The first element of a sequence that has a property.

use vstd::prelude::*;

verus! {

/// Whether `i` is the place of the first element of `s` that has the
/// property `p`.
pub open spec fn first_where<T>(s: Seq<T>, p: spec_fn(T) -> bool, i: int) -> bool {
    &&& 0 <= i < s.len()
    &&& p(s[i])
    &&& forall|j: int| 0 <= j < i ==> !p(#[trigger] s[j])
}

/// The place of the first element that has the property, if any has it.
pub open spec fn position<T>(s: Seq<T>, p: spec_fn(T) -> bool) -> Option<int> {
    if exists|i: int| first_where(s, p, i) {
        Some(choose|i: int| first_where(s, p, i))
    } else {
        None
    }
}

/// The first place is the position.
pub proof fn lemma_position_is<T>(s: Seq<T>, p: spec_fn(T) -> bool, i: int)
    requires
        first_where(s, p, i),
    ensures
        position(s, p) == Some(i),
{
    let k = choose|k: int| first_where(s, p, k);
    if k < i {
        assert(!p(s[k]));
    }
    if i < k {
        assert(!p(s[i]));
    }
}

/// Where no element has the property there is no position.
pub proof fn lemma_position_none<T>(s: Seq<T>, p: spec_fn(T) -> bool)
    requires
        forall|j: int| 0 <= j < s.len() ==> !p(#[trigger] s[j]),
    ensures
        position(s, p) is None,
{
    if exists|i: int| first_where(s, p, i) {
        let k = choose|k: int| first_where(s, p, k);
        assert(!p(s[k]));
    }
}

/// A position is a place in the sequence whose element has the property,
/// and no element before it has it; no position means no element has it.
pub proof fn lemma_position<T>(s: Seq<T>, p: spec_fn(T) -> bool)
    ensures
        match position(s, p) {
            Some(i) => first_where(s, p, i),
            None => forall|j: int| 0 <= j < s.len() ==> !p(#[trigger] s[j]),
        },
{
    if position(s, p) is None {
        assert forall|j: int| 0 <= j < s.len() implies !p(#[trigger] s[j]) by {
            if p(s[j]) {
                lemma_some_first(s, p, j);
            }
        }
    }
}

/// Where an element has the property, some element is the first to have it.
pub proof fn lemma_some_first<T>(s: Seq<T>, p: spec_fn(T) -> bool, j: int)
    requires
        0 <= j < s.len(),
        p(s[j]),
    ensures
        exists|i: int| first_where(s, p, i),
    decreases j,
{
    if forall|k: int| 0 <= k < j ==> !p(#[trigger] s[k]) {
        assert(first_where(s, p, j));
    } else {
        let k = choose|k: int| 0 <= k < j && p(#[trigger] s[k]);
        lemma_some_first(s, p, k);
    }
}

/// Two sequences of one length whose elements have their properties at the
/// same places have the same position.
pub proof fn lemma_position_agrees<T>(
    s1: Seq<T>,
    p1: spec_fn(T) -> bool,
    s2: Seq<T>,
    p2: spec_fn(T) -> bool,
)
    requires
        s1.len() == s2.len(),
        forall|j: int| 0 <= j < s1.len() ==> p1(#[trigger] s1[j]) == p2(s2[j]),
    ensures
        position(s1, p1) == position(s2, p2),
{
    lemma_position(s1, p1);
    match position(s1, p1) {
        Some(i) => {
            assert forall|j: int| 0 <= j < i implies !p2(#[trigger] s2[j]) by {
                assert(!p1(s1[j]));
            }
            assert(p1(s1[i]));
            lemma_position_is(s2, p2, i);
        },
        None => {
            assert forall|j: int| 0 <= j < s2.len() implies !p2(#[trigger] s2[j]) by {
                assert(!p1(s1[j]));
            }
            lemma_position_none(s2, p2);
        },
    }
}

} // verus!
