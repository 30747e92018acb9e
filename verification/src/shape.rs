//! Shapes: primitives, and unions and intersections of shapes.
//!
//! A shape is a tree. Its leaves are primitives, whose geometry is the
//! caller's; its inner nodes combine two shapes. A ray or a point is
//! resolved by asking the caller about the primitives and combining the
//! answers on the way up.

use vstd::prelude::*;
use crate::csg::{
    intersect_hit,
    intersect_intersect,
    intersect_is_inside,
    union_hit,
    union_intersect,
    union_is_inside,
};
use crate::hit::Hit;
use crate::query::{accepts, accepts_both, computes, computes_both};

verus! {

/// A primitive, or two shapes combined. A combined shape owns its children.
pub enum Shape<G> {
    /// A shape whose geometry is known to the caller.
    Primitive(G),
    /// What lies in either of two shapes.
    Union(Box<Shape<G>>, Box<Shape<G>>),
    /// What lies in both of two shapes.
    Intersect(Box<Shape<G>>, Box<Shape<G>>),
}

/// Whether `shape` contains a point, where `holds` says which primitives
/// contain it: a union contains what either child contains, an intersection
/// what both contain.
pub open spec fn contains<G>(shape: Shape<G>, holds: spec_fn(G) -> bool) -> bool
    decreases shape,
{
    match shape {
        Shape::Primitive(g) => holds(g),
        Shape::Union(a, b) => contains(*a, holds) || contains(*b, holds),
        Shape::Intersect(a, b) => contains(*a, holds) && contains(*b, holds),
    }
}

/// What a ray finds of `shape`, where `found` says what it finds of each
/// primitive and `holds` which primitives contain what lies at a hit.
///
/// A union is hit where the closer of its children is hit. An intersection
/// is hit where a child is hit inside the other child, at the closer of the
/// two places if there are two.
pub open spec fn hit_of<G, T>(
    shape: Shape<G>,
    found: spec_fn(G) -> Option<Hit<T>>,
    holds: spec_fn(G, T) -> bool,
) -> Option<Hit<T>>
    decreases shape,
{
    match shape {
        Shape::Primitive(g) => found(g),
        Shape::Union(a, b) => union_hit(hit_of(*a, found, holds), hit_of(*b, found, holds)),
        Shape::Intersect(a, b) => {
            let first = hit_of(*a, found, holds);
            let second = hit_of(*b, found, holds);
            intersect_hit(
                first,
                second,
                second is Some && holds_at(*a, holds, second->0.surface),
                first is Some && holds_at(*b, holds, first->0.surface),
            )
        },
    }
}

/// Whether `shape` contains what lies at `at`.
pub open spec fn holds_at<G, T>(shape: Shape<G>, holds: spec_fn(G, T) -> bool, at: T) -> bool {
    contains(shape, |g: G| holds(g, at))
}

impl<G> Shape<G> {
    /// Whether the shape contains what lies at `at`. `holds` says whether a
    /// primitive does.
    pub fn is_inside<Q, H: Fn(&G, &Q) -> bool>(&self, at: &Q, holds: &H) -> (r: bool)
        requires
            accepts_both(*holds),
        ensures
            forall|inside: spec_fn(G, Q) -> bool| #[trigger]
                computes_both(*holds, inside) ==> r == holds_at(*self, inside, *at),
        decreases self,
    {
        match self {
            Shape::Primitive(g) => holds(g, at),
            Shape::Union(a, b) => union_is_inside(a.is_inside(at, holds), b.is_inside(at, holds)),
            Shape::Intersect(a, b) => intersect_is_inside(
                a.is_inside(at, holds),
                b.is_inside(at, holds),
            ),
        }
    }

    /// What a ray finds of the shape. `cast` says what the ray finds of a
    /// primitive, `holds` whether a primitive contains what lies at a hit.
    pub fn intersect<T, C: Fn(&G) -> Option<Hit<T>>, H: Fn(&G, &T) -> bool>(
        &self,
        cast: &C,
        holds: &H,
    ) -> (r: Option<Hit<T>>)
        requires
            accepts(*cast),
            accepts_both(*holds),
        ensures
            forall|found: spec_fn(G) -> Option<Hit<T>>, inside: spec_fn(G, T) -> bool|
                #[trigger] computes(*cast, found) && #[trigger] computes_both(*holds, inside) ==> r
                    == hit_of(*self, found, inside),
        decreases self,
    {
        match self {
            Shape::Primitive(g) => cast(g),
            Shape::Union(a, b) => union_intersect(a.intersect(cast, holds), b.intersect(cast, holds)),
            Shape::Intersect(a, b) => {
                let first = a.intersect(cast, holds);
                let second = b.intersect(cast, holds);
                let first_holds_second = match &second {
                    Some(hit) => a.is_inside(&hit.surface, holds),
                    None => false,
                };
                let second_holds_first = match &first {
                    Some(hit) => b.is_inside(&hit.surface, holds),
                    None => false,
                };
                intersect_intersect(first, second, first_holds_second, second_holds_first)
            },
        }
    }
}

/// A union contains exactly what one of its children contains, and an
/// intersection exactly what both contain.
pub proof fn lemma_combined_shapes_contain<G>(a: Shape<G>, b: Shape<G>, holds: spec_fn(G) -> bool)
    ensures
        contains(Shape::Union(Box::new(a), Box::new(b)), holds) == (contains(a, holds) || contains(
            b,
            holds,
        )),
        contains(Shape::Intersect(Box::new(a), Box::new(b)), holds) == (contains(a, holds)
            && contains(b, holds)),
{
}

} // verus!
