//! The first position in a sequence at which a predicate holds.
use vstd::prelude::*;

verus! {

/// `i` is the first position of `s` whose element satisfies `p`.
pub open spec fn is_first<T>(s: Seq<T>, i: int, p: spec_fn(T) -> bool) -> bool {
    &&& 0 <= i < s.len()
    &&& p(s[i])
    &&& forall|j: int| 0 <= j < i ==> !p(#[trigger] s[j])
}

/// The first position of `s` whose element satisfies `p`, if there is one.
pub open spec fn first_index<T>(s: Seq<T>, p: spec_fn(T) -> bool) -> Option<int> {
    if exists|i: int| is_first(s, i, p) {
        Some(choose|i: int| is_first(s, i, p))
    } else {
        None
    }
}

/// A first position is unique, so `first_index` names it.
pub proof fn lemma_first_index_is<T>(s: Seq<T>, i: int, p: spec_fn(T) -> bool)
    requires
        is_first(s, i, p),
    ensures
        first_index(s, p) == Some(i),
{
    let k = choose|k: int| is_first(s, k, p);
    assert(is_first(s, k, p));
    if k < i {
        assert(!p(s[k]));
    } else if i < k {
        assert(!p(s[i]));
    }
}

/// No element satisfies `p` exactly when there is no first position.
pub proof fn lemma_first_index_none<T>(s: Seq<T>, p: spec_fn(T) -> bool)
    ensures
        first_index(s, p) is None <==> forall|j: int| 0 <= j < s.len() ==> !p(#[trigger] s[j]),
    decreases s.len(),
{
    if first_index(s, p) is None {
        assert forall|j: int| 0 <= j < s.len() implies !p(#[trigger] s[j]) by {
            if p(s[j]) {
                lemma_exists_first(s, j, p);
            }
        }
    }
}

/// Where some element satisfies `p`, a first one does.
pub proof fn lemma_exists_first<T>(s: Seq<T>, j: int, p: spec_fn(T) -> bool)
    requires
        0 <= j < s.len(),
        p(s[j]),
    ensures
        exists|i: int| is_first(s, i, p),
    decreases j,
{
    if forall|k: int| 0 <= k < j ==> !p(#[trigger] s[k]) {
        assert(is_first(s, j, p));
    } else {
        let k = choose|k: int| 0 <= k < j && p(s[k]);
        lemma_exists_first(s, k, p);
    }
}

/// A found first position lies within the sequence and satisfies `p`.
pub proof fn lemma_first_index_found<T>(s: Seq<T>, p: spec_fn(T) -> bool)
    requires
        first_index(s, p) is Some,
    ensures
        is_first(s, first_index(s, p)->0, p),
{
}

} // verus!
