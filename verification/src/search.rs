//! The first position at which a test succeeds.

use vstd::prelude::*;

verus! {

/// The first position at or after `start` where `hits` is true.
pub open spec fn first_from(hits: Seq<bool>, start: int) -> Option<int>
    decreases hits.len() - start,
{
    if start < 0 || start >= hits.len() {
        None
    } else if hits[start] {
        Some(start)
    } else {
        first_from(hits, start + 1)
    }
}

/// The first position where `hits` is true.
pub open spec fn first_hit(hits: Seq<bool>) -> Option<int> {
    first_from(hits, 0)
}

/// Whether `hits` is true at `i` and nowhere in `start..i`.
pub open spec fn is_first_from(hits: Seq<bool>, start: int, i: int) -> bool {
    &&& start <= i < hits.len()
    &&& hits[i]
    &&& forall|j: int| start <= j < i ==> !hits[j]
}

/// `first_from` finds the first true position, and finds none only where
/// there is none.
pub proof fn lemma_first_from(hits: Seq<bool>, start: int)
    requires
        0 <= start,
    ensures
        match first_from(hits, start) {
            Some(i) => is_first_from(hits, start, i),
            None => forall|j: int| start <= j < hits.len() ==> !hits[j],
        },
    decreases hits.len() - start,
{
    if start < hits.len() && !hits[start] {
        lemma_first_from(hits, start + 1);
    }
}

/// A position that is true with none true before it is the one that
/// `first_hit` finds.
pub proof fn lemma_first_hit_is(hits: Seq<bool>, i: int)
    requires
        is_first_from(hits, 0, i),
    ensures
        first_hit(hits) == Some(i),
{
    lemma_first_from(hits, 0);
}

/// Where no position is true, `first_hit` finds none.
pub proof fn lemma_first_hit_none(hits: Seq<bool>)
    requires
        forall|j: int| 0 <= j < hits.len() ==> !hits[j],
    ensures
        first_hit(hits) is None,
{
    lemma_first_from(hits, 0);
}

} // verus!
