//! "First element satisfying a predicate", the selection rule behind every
//! lookup in the crate (bots, contacts, kinds, paths).

use vstd::prelude::*;

verus! {

/// The index of the first element of `s` that satisfies `p`, if any.
pub open spec fn first_index<T>(s: Seq<T>, p: spec_fn(T) -> bool) -> Option<int> {
    if exists|i: int| 0 <= i < s.len() && #[trigger] p(s[i]) {
        Some(choose|i: int| 0 <= i < s.len() && #[trigger] p(s[i]) && forall|k: int| 0 <= k < i ==> !#[trigger] p(s[k]))
    } else {
        None
    }
}

/// A scan that stopped at `i` (the first hit) names the first index.
pub proof fn lemma_first_index_found<T>(s: Seq<T>, p: spec_fn(T) -> bool, i: int)
    requires
        0 <= i < s.len(),
        p(s[i]),
        forall|k: int| 0 <= k < i ==> !#[trigger] p(s[k]),
    ensures
        first_index(s, p) == Some(i),
{
    assert(exists|x: int| 0 <= x < s.len() && #[trigger] p(s[x]));
    let c = choose|x: int| 0 <= x < s.len() && #[trigger] p(s[x]) && forall|k: int| 0 <= k < x ==> !#[trigger] p(s[k]);
    assert(exists|x: int| 0 <= x < s.len() && #[trigger] p(s[x]) && forall|k: int| 0 <= k < x ==> !#[trigger] p(s[k])) by {
        assert(0 <= i < s.len() && p(s[i]) && forall|k: int| 0 <= k < i ==> !#[trigger] p(s[k]));
    }
    if c < i {
        assert(!p(s[c]));
    } else if c > i {
        assert(!p(s[i]));
    }
}

/// A scan that found nothing names no index.
pub proof fn lemma_first_index_none<T>(s: Seq<T>, p: spec_fn(T) -> bool)
    requires
        forall|k: int| 0 <= k < s.len() ==> !#[trigger] p(s[k]),
    ensures
        first_index(s, p) is None,
{
}

/// Facts about the first index, for callers.
pub proof fn lemma_first_index_props<T>(s: Seq<T>, p: spec_fn(T) -> bool)
    ensures
        first_index(s, p) matches Some(i) ==> 0 <= i < s.len() && p(s[i]) && forall|k: int|
            0 <= k < i ==> !#[trigger] p(s[k]),
        first_index(s, p) is None ==> forall|k: int| 0 <= k < s.len() ==> !#[trigger] p(s[k]),
{
    if exists|i: int| 0 <= i < s.len() && #[trigger] p(s[i]) {
        let i = choose|i: int| 0 <= i < s.len() && #[trigger] p(s[i]);
        lemma_least_hit(s, p, i);
    }
}

proof fn lemma_least_hit<T>(s: Seq<T>, p: spec_fn(T) -> bool, i: int)
    requires
        0 <= i < s.len(),
        p(s[i]),
    ensures
        exists|x: int| 0 <= x < s.len() && #[trigger] p(s[x]) && forall|k: int| 0 <= k < x ==> !#[trigger] p(s[k]),
    decreases i,
{
    if exists|k: int| 0 <= k < i && #[trigger] p(s[k]) {
        let k = choose|k: int| 0 <= k < i && #[trigger] p(s[k]);
        lemma_least_hit(s, p, k);
    } else {
        assert(forall|k: int| 0 <= k < i ==> !#[trigger] p(s[k]));
    }
}

} // verus!
