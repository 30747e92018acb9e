//! Nearest-hit resolution.
//!
//! A ray is tested against a list of candidates: the entities of a scene, or
//! the edges of a polygon. Each candidate either misses or hits at some
//! distance from the ray's origin. The hit that wins is the closest one;
//! among hits at the same distance the earliest in the list wins.

use vstd::prelude::*;
use crate::hit::Hit;

verus! {

/// `i` is the place of the nearest hit of `hits`: it is a hit, no hit is
/// closer, and every hit before it is strictly farther.
pub open spec fn is_nearest<T>(hits: Seq<Option<Hit<T>>>, i: int) -> bool {
    &&& 0 <= i < hits.len()
    &&& hits[i] is Some
    &&& forall|j: int|
        0 <= j < hits.len() && (#[trigger] hits[j]) is Some ==> hits[i]->0.distance
            <= hits[j]->0.distance
    &&& forall|j: int|
        0 <= j < i && (#[trigger] hits[j]) is Some ==> hits[i]->0.distance < hits[j]->0.distance
}

/// No candidate of `hits` was hit.
pub open spec fn all_miss<T>(hits: Seq<Option<Hit<T>>>) -> bool {
    forall|j: int| 0 <= j < hits.len() ==> (#[trigger] hits[j]) is None
}

/// The nearest hit of `hits`, or `None` where every candidate misses.
pub open spec fn nearest_hit<T>(hits: Seq<Option<Hit<T>>>) -> Option<Hit<T>> {
    if exists|i: int| is_nearest(hits, i) {
        hits[choose|i: int| is_nearest(hits, i)]
    } else {
        None
    }
}

/// Candidates that are hit at the distance of the nearest hit are hit alike:
/// no two different hits share that distance.
pub open spec fn ties_agree<T>(hits: Seq<Option<Hit<T>>>) -> bool {
    forall|i: int, j: int|
        is_nearest(hits, i) && 0 <= j < hits.len() && (#[trigger] hits[j]) is Some
            && hits[j]->0.distance == (#[trigger] hits[i])->0.distance ==> hits[j] == hits[i]
}

/// `order` names every place of a list of length `n` once.
pub open spec fn is_permutation(order: Seq<int>, n: nat) -> bool {
    &&& order.len() == n
    &&& forall|k: int| 0 <= k < n ==> 0 <= #[trigger] order[k] < n
    &&& forall|k: int, l: int|
        0 <= k < n && 0 <= l < n && k != l ==> #[trigger] order[k] != #[trigger] order[l]
    &&& forall|i: int| 0 <= i < n ==> #[trigger] order.contains(i)
}

/// The items of `list` taken in the order that `order` gives.
pub open spec fn reordered<A>(list: Seq<A>, order: Seq<int>) -> Seq<A> {
    Seq::new(order.len(), |k: int| list[order[k]])
}

/// Finds the nearest hit among the candidates.
pub fn nearest<T>(hits: Vec<Option<Hit<T>>>) -> (r: Option<Hit<T>>)
    ensures
        r == nearest_hit(hits@),
        r is None <==> all_miss(hits@),
{
    let ghost all = hits@;
    let ghost mut place: int = 0;
    let mut best: Option<Hit<T>> = None;
    for candidate in it: hits
        invariant
            it.seq() == all,
            match best {
                Some(hit) => {
                    &&& 0 <= place < it.index()
                    &&& all[place] == Some(hit)
                    &&& forall|j: int|
                        0 <= j < it.index() && (#[trigger] all[j]) is Some ==> hit.distance
                            <= all[j]->0.distance
                    &&& forall|j: int|
                        0 <= j < place && (#[trigger] all[j]) is Some ==> hit.distance
                            < all[j]->0.distance
                },
                None => forall|j: int| 0 <= j < it.index() ==> (#[trigger] all[j]) is None,
            },
    {
        match candidate {
            Some(hit) => {
                let closer = match &best {
                    Some(nearest_so_far) => hit.distance < nearest_so_far.distance,
                    None => true,
                };
                if closer {
                    best = Some(hit);
                    proof {
                        place = it.index() as int;
                    }
                }
            },
            None => {},
        }
    }
    proof {
        lemma_miss_has_no_nearest(all);
        if best is Some {
            lemma_nearest_is_determined(all, place);
        }
    }
    best
}

/// The nearest hit is determined: once `is_nearest` accepts a place, it
/// accepts no other, and the hit there is the nearest hit of the list.
pub proof fn lemma_nearest_is_determined<T>(hits: Seq<Option<Hit<T>>>, i: int)
    requires
        is_nearest(hits, i),
    ensures
        forall|j: int| is_nearest(hits, j) ==> j == i,
        nearest_hit(hits) == hits[i],
        nearest_hit(hits) is Some,
{
    assert forall|j: int| is_nearest(hits, j) implies j == i by {
        if i < j {
            assert(hits[i] is Some);
        } else if j < i {
            assert(hits[j] is Some);
        }
    }
}

/// A list has no nearest hit exactly when every candidate misses.
pub proof fn lemma_miss_has_no_nearest<T>(hits: Seq<Option<Hit<T>>>)
    ensures
        all_miss(hits) <==> nearest_hit(hits) is None,
{
    if all_miss(hits) {
        assert forall|i: int| !is_nearest(hits, i) by {
            if 0 <= i < hits.len() {
                assert(hits[i] is None);
            }
        }
    } else {
        let i = lemma_some_hit_has_a_nearest(hits, hits.len() as int);
        lemma_nearest_is_determined(hits, i);
    }
}

/// `i` is the place of the nearest hit among the first `n` candidates.
spec fn is_nearest_of_first<T>(hits: Seq<Option<Hit<T>>>, n: int, i: int) -> bool {
    &&& 0 <= i < n <= hits.len()
    &&& hits[i] is Some
    &&& forall|j: int|
        0 <= j < n && (#[trigger] hits[j]) is Some ==> hits[i]->0.distance <= hits[j]->0.distance
    &&& forall|j: int|
        0 <= j < i && (#[trigger] hits[j]) is Some ==> hits[i]->0.distance < hits[j]->0.distance
}

/// Where one of the first `n` candidates is hit, one of them is nearest.
proof fn lemma_some_hit_has_a_nearest<T>(hits: Seq<Option<Hit<T>>>, n: int) -> (i: int)
    requires
        0 <= n <= hits.len(),
        exists|j: int| 0 <= j < n && (#[trigger] hits[j]) is Some,
    ensures
        is_nearest_of_first(hits, n, i),
    decreases n,
{
    if exists|j: int| 0 <= j < n - 1 && (#[trigger] hits[j]) is Some {
        let i = lemma_some_hit_has_a_nearest(hits, n - 1);
        if hits[n - 1] is Some && hits[n - 1]->0.distance < hits[i]->0.distance {
            n - 1
        } else {
            i
        }
    } else {
        n - 1
    }
}

/// The order of the candidates does not change the nearest hit, unless two
/// different hits share the nearest distance: of those the earlier one wins,
/// whichever it is.
pub proof fn lemma_nearest_ignores_order<T>(hits: Seq<Option<Hit<T>>>, order: Seq<int>)
    requires
        is_permutation(order, hits.len()),
        ties_agree(hits),
    ensures
        nearest_hit(reordered(hits, order)) == nearest_hit(hits),
{
    let moved = reordered(hits, order);
    lemma_miss_has_no_nearest(hits);
    lemma_miss_has_no_nearest(moved);
    if all_miss(hits) {
        assert forall|j: int| 0 <= j < moved.len() implies (#[trigger] moved[j]) is None by {
            assert(hits[order[j]] is None);
        }
    } else {
        let i = choose|i: int| is_nearest(hits, i);
        lemma_nearest_is_determined(hits, i);
        assert(order.contains(i));
        let at = choose|k: int| 0 <= k < order.len() && order[k] == i;
        assert(moved[at] is Some);
        let k = choose|k: int| is_nearest(moved, k);
        lemma_nearest_is_determined(moved, k);
        assert(hits[order[k]] is Some);
        assert(hits[i] is Some);
        assert(moved[k]->0.distance == hits[i]->0.distance);
    }
}

} // verus!
