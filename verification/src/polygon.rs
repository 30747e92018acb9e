//! The outline of a convex polygon: an ordered ring of at least two
//! vertices, walked edge by edge.
//!
//! The polygon does not look inside a vertex. What is computed from the two
//! ends of an edge is the caller's; the ring, its edges and what all edges
//! together decide are kept here.

use vstd::prelude::*;
use crate::hit::Hit;
use crate::nearest::{nearest, nearest_hit};
use crate::query::{accepts_both, computes_both};

verus! {

/// The fewest vertices a polygon can have.
pub const MIN_POINTS: usize = 2;

/// Why an outline was not accepted.
#[derive(Clone, Copy, Debug, PartialEq, Eq, Structural)]
pub enum PolygonError {
    /// Fewer than two vertices were given.
    TooFewPoints,
}

/// A ring of vertices in counter-clockwise order.
pub struct Polygon<V> {
    points: Vec<V>,
}

/// The place of the vertex that ends the edge starting at place `i`, on a
/// ring of `n` vertices.
pub open spec fn next_on_ring(i: int, n: int) -> int {
    if i + 1 == n {
        0
    } else {
        i + 1
    }
}

/// What a ray finds of each edge of the ring `points`, in the order of the
/// edges, where `crossing` says what it finds of the edge between two
/// vertices.
pub open spec fn edge_hits<V, T>(
    points: Seq<V>,
    crossing: spec_fn(V, V) -> Option<Hit<T>>,
) -> Seq<Option<Hit<T>>> {
    Seq::new(
        points.len(),
        |i: int| crossing(points[i], points[next_on_ring(i, points.len() as int)]),
    )
}

/// Whether a point lies on the inner side of every edge of the ring
/// `points`, where `inner` says whether it lies on the inner side of the
/// edge between two vertices.
pub open spec fn within_edges<V>(points: Seq<V>, inner: spec_fn(V, V) -> bool) -> bool {
    forall|i: int|
        0 <= i < points.len() ==> inner(
            #[trigger] points[i],
            points[next_on_ring(i, points.len() as int)],
        )
}

impl<V> View for Polygon<V> {
    type V = Seq<V>;

    closed spec fn view(&self) -> Seq<V> {
        self.points@
    }
}

impl<V> Polygon<V> {
    #[verifier::type_invariant]
    spec fn well_formed(&self) -> bool {
        self.points@.len() >= MIN_POINTS
    }

    /// Takes the vertices as the outline of a polygon, if there are at least
    /// two of them.
    pub fn new(points: Vec<V>) -> (r: Result<Self, PolygonError>)
        ensures
            match r {
                Ok(polygon) => points@.len() >= MIN_POINTS && polygon@ == points@,
                Err(e) => points@.len() < MIN_POINTS && e == PolygonError::TooFewPoints,
            },
    {
        if points.len() >= MIN_POINTS {
            Ok(Polygon { points })
        } else {
            Err(PolygonError::TooFewPoints)
        }
    }

    /// The number of vertices, which is also the number of edges.
    pub fn len(&self) -> (n: usize)
        ensures
            n == self@.len(),
            n >= MIN_POINTS,
    {
        proof {
            use_type_invariant(self);
        }
        self.points.len()
    }

    /// The two ends of the edge at place `i`: the vertex at `i` and the one
    /// that follows it on the ring, the last vertex being followed by the
    /// first.
    pub fn edge(&self, i: usize) -> (ends: (&V, &V))
        requires
            i < self@.len(),
        ensures
            *ends.0 == self@[i as int],
            *ends.1 == self@[next_on_ring(i as int, self@.len() as int)],
    {
        let n = self.points.len();
        let from = &self.points[i];
        let to = if i + 1 == n {
            &self.points[0]
        } else {
            &self.points[i + 1]
        };
        (from, to)
    }

    /// What a ray finds of the polygon: the nearest of its crossings with
    /// the edges, and of crossings at one distance the one with the earliest
    /// edge. `cross` says what the ray finds of the edge between two
    /// vertices.
    pub fn intersect<T, C: Fn(&V, &V) -> Option<Hit<T>>>(&self, cross: &C) -> (r: Option<Hit<T>>)
        requires
            accepts_both(*cross),
        ensures
            forall|crossing: spec_fn(V, V) -> Option<Hit<T>>| #[trigger]
                computes_both(*cross, crossing) ==> r == nearest_hit(edge_hits(self@, crossing)),
    {
        let n = self.len();
        let mut crossings: Vec<Option<Hit<T>>> = Vec::new();
        let mut i: usize = 0;
        while i < n
            invariant
                i <= n,
                n == self@.len(),
                crossings@.len() == i,
                accepts_both(*cross),
                forall|j: int|
                    0 <= j < i ==> cross.ensures(
                        (&self@[j], &self@[next_on_ring(j, n as int)]),
                        #[trigger] crossings@[j],
                    ),
            decreases n - i,
        {
            let (from, to) = self.edge(i);
            crossings.push(cross(from, to));
            i += 1;
        }
        let r = nearest(crossings);
        proof {
            assert forall|crossing: spec_fn(V, V) -> Option<Hit<T>>| #[trigger]
                computes_both(*cross, crossing) implies r == nearest_hit(
                edge_hits(self@, crossing),
            ) by {
                assert(crossings@ =~= edge_hits(self@, crossing));
            }
        }
        r
    }

    /// Whether a point lies inside the polygon: strictly on the inner side
    /// of every edge. `inner` says whether it lies so for the edge between
    /// two vertices.
    pub fn is_inside<H: Fn(&V, &V) -> bool>(&self, inner: &H) -> (r: bool)
        requires
            accepts_both(*inner),
        ensures
            forall|side: spec_fn(V, V) -> bool| #[trigger]
                computes_both(*inner, side) ==> r == within_edges(self@, side),
    {
        let n = self.len();
        let mut i: usize = 0;
        while i < n
            invariant
                i <= n,
                n == self@.len(),
                accepts_both(*inner),
                forall|j: int|
                    0 <= j < i ==> inner.ensures(
                        (&#[trigger] self@[j], &self@[next_on_ring(j, n as int)]),
                        true,
                    ),
            decreases n - i,
        {
            let (from, to) = self.edge(i);
            if !inner(from, to) {
                return false;
            }
            i += 1;
        }
        true
    }
}

/// The walk over the edges closes the ring: the edge that starts at the last
/// vertex ends at the first, every edge ends at a vertex other than the one
/// it starts at, and no two edges end at the same vertex.
pub proof fn lemma_edges_close_the_ring(n: int)
    requires
        n >= MIN_POINTS,
    ensures
        next_on_ring(n - 1, n) == 0,
        forall|i: int| 0 <= i < n ==> 0 <= #[trigger] next_on_ring(i, n) < n,
        forall|i: int| 0 <= i < n ==> #[trigger] next_on_ring(i, n) != i,
        forall|i: int, j: int|
            0 <= i < n && 0 <= j < n && i != j ==> #[trigger] next_on_ring(i, n)
                != #[trigger] next_on_ring(j, n),
{
}

} // verus!
