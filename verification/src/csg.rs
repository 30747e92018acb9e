//! The two combinators of constructive solid geometry: union and
//! intersection of two child shapes.
//!
//! A combinator does not look at geometry. It is handed what its children
//! found: for a ray, the hit of each child, and whether the other child
//! contains that hit; for a point, whether each child contains it. It
//! answers with the hit of the combined shape, or with whether the combined
//! shape contains the point.

use vstd::prelude::*;
use crate::hit::Hit;

verus! {

/// The hit of a union: the closer of the two children's hits, a missing hit
/// counting as infinitely far. At equal distances it is the second child's.
pub open spec fn union_hit<T>(first: Option<Hit<T>>, second: Option<Hit<T>>) -> Option<Hit<T>> {
    if first is Some && (second is None || first->0.distance < second->0.distance) {
        first
    } else {
        second
    }
}

/// A child's hit as far as it bounds the intersection: it counts only where
/// the other child contains it.
pub open spec fn trimmed<T>(hit: Option<Hit<T>>, held_by_other: bool) -> Option<Hit<T>> {
    if held_by_other {
        hit
    } else {
        None
    }
}

/// The hit of an intersection: the closer of those hits of the children that
/// the other child contains.
pub open spec fn intersect_hit<T>(
    first: Option<Hit<T>>,
    second: Option<Hit<T>>,
    first_holds_second: bool,
    second_holds_first: bool,
) -> Option<Hit<T>> {
    union_hit(trimmed(first, second_holds_first), trimmed(second, first_holds_second))
}

/// The hit of the union of two shapes, from the hits of the two.
pub fn union_intersect<T>(first: Option<Hit<T>>, second: Option<Hit<T>>) -> (r: Option<Hit<T>>)
    ensures
        r == union_hit(first, second),
{
    match (first, second) {
        (Some(h1), Some(h2)) => {
            if h1.distance < h2.distance {
                Some(h1)
            } else {
                Some(h2)
            }
        },
        (None, r2) => r2,
        (r1, None) => r1,
    }
}

/// Whether the union of two shapes contains a point, from whether each of
/// the two does.
pub fn union_is_inside(in_first: bool, in_second: bool) -> (r: bool)
    ensures
        r == (in_first || in_second),
{
    in_first || in_second
}

/// The hit of the intersection of two shapes, from the hits of the two.
/// `first_holds_second` says whether the first shape contains the second
/// shape's hit, and `second_holds_first` the reverse; neither is read for a
/// hit that is missing.
pub fn intersect_intersect<T>(
    first: Option<Hit<T>>,
    second: Option<Hit<T>>,
    first_holds_second: bool,
    second_holds_first: bool,
) -> (r: Option<Hit<T>>)
    ensures
        r == intersect_hit(first, second, first_holds_second, second_holds_first),
{
    match (first, second) {
        (Some(h1), Some(h2)) => {
            if first_holds_second && second_holds_first {
                if h1.distance < h2.distance {
                    Some(h1)
                } else {
                    Some(h2)
                }
            } else if first_holds_second {
                Some(h2)
            } else if second_holds_first {
                Some(h1)
            } else {
                None
            }
        },
        (None, Some(h2)) => {
            if first_holds_second {
                Some(h2)
            } else {
                None
            }
        },
        (Some(h1), None) => {
            if second_holds_first {
                Some(h1)
            } else {
                None
            }
        },
        (None, None) => None,
    }
}

/// Whether the intersection of two shapes contains a point, from whether
/// each of the two does.
pub fn intersect_is_inside(in_first: bool, in_second: bool) -> (r: bool)
    ensures
        r == (in_first && in_second),
{
    in_first && in_second
}

/// A union reports one of its children's hits, misses only where both
/// children miss, and reports no hit that is farther than a child's.
pub proof fn lemma_union_reports_closest<T>(first: Option<Hit<T>>, second: Option<Hit<T>>)
    ensures
        union_hit(first, second) == first || union_hit(first, second) == second,
        union_hit(first, second) is None <==> first is None && second is None,
        first is Some ==> union_hit(first, second)->0.distance <= first->0.distance,
        second is Some ==> union_hit(first, second)->0.distance <= second->0.distance,
{
}

/// The hit of a union does not depend on the order of its children, unless
/// the two are hit differently at the same distance.
pub proof fn lemma_union_ignores_order<T>(first: Option<Hit<T>>, second: Option<Hit<T>>)
    requires
        first is Some && second is Some && first->0.distance == second->0.distance ==> first
            == second,
    ensures
        union_hit(second, first) == union_hit(first, second),
{
}

/// An intersection reports only a hit that the other child contains, and
/// misses only where neither child has such a hit.
pub proof fn lemma_intersect_reports_contained<T>(
    first: Option<Hit<T>>,
    second: Option<Hit<T>>,
    first_holds_second: bool,
    second_holds_first: bool,
)
    ensures
        ({
            let r = intersect_hit(first, second, first_holds_second, second_holds_first);
            &&& r is Some ==> (r == first && second_holds_first) || (r == second
                && first_holds_second)
            &&& r is None <==> !(first is Some && second_holds_first) && !(second is Some
                && first_holds_second)
        }),
{
}

} // verus!
