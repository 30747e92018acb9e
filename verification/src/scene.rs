//! Entities and the scene: shapes bound to materials, and the nearest hit
//! among them.

use vstd::prelude::*;
use crate::hit::Hit;
use crate::nearest::{
    is_permutation,
    lemma_nearest_ignores_order,
    nearest,
    nearest_hit,
    reordered,
    ties_agree,
};
use crate::query::{accepts, computes};

verus! {

/// A shape with the material that it is made of.
pub struct Entity<S, M> {
    pub shape: S,
    pub material: M,
}

/// The entities that a ray may hit, in a fixed order.
pub struct Scene<S, M> {
    pub entities: Vec<Entity<S, M>>,
}

/// A hit of a shape as a hit of the entity with that shape: the same hit,
/// with the entity's material bound to what lies there.
pub open spec fn bound<T, M>(hit: Option<Hit<T>>, material: M) -> Option<Hit<(T, M)>> {
    match hit {
        Some(hit) => Some(Hit { distance: hit.distance, surface: (hit.surface, material) }),
        None => None,
    }
}

/// What a ray finds of each of `entities`, in their order, where `found`
/// says what it finds of a shape.
pub open spec fn entity_hits<S, M, T>(
    entities: Seq<Entity<S, M>>,
    found: spec_fn(S) -> Option<Hit<T>>,
) -> Seq<Option<Hit<(T, M)>>> {
    Seq::new(entities.len(), |i: int| bound(found(entities[i].shape), entities[i].material))
}

impl<S, M: Copy> Entity<S, M> {
    /// What a ray finds of this entity: what it finds of the entity's shape,
    /// with the entity's material bound to it. `cast` says what the ray
    /// finds of a shape.
    pub fn intersect<T, C: Fn(&S) -> Option<Hit<T>>>(&self, cast: &C) -> (r: Option<Hit<(T, M)>>)
        requires
            accepts(*cast),
        ensures
            forall|found: spec_fn(S) -> Option<Hit<T>>| #[trigger]
                computes(*cast, found) ==> r == bound(found(self.shape), self.material),
    {
        match cast(&self.shape) {
            Some(hit) => Some(Hit { distance: hit.distance, surface: (hit.surface, self.material) }),
            None => None,
        }
    }
}

impl<S, M: Copy> Scene<S, M> {
    /// What a ray finds of the scene: the nearest of the hits of its
    /// entities, and of hits at one distance that of the earliest entity.
    /// `cast` says what the ray finds of a shape.
    pub fn intersect<T, C: Fn(&S) -> Option<Hit<T>>>(&self, cast: &C) -> (r: Option<Hit<(T, M)>>)
        requires
            accepts(*cast),
        ensures
            forall|found: spec_fn(S) -> Option<Hit<T>>| #[trigger]
                computes(*cast, found) ==> r == nearest_hit(entity_hits(self.entities@, found)),
    {
        let n = self.entities.len();
        let mut hits: Vec<Option<Hit<(T, M)>>> = Vec::new();
        let mut i: usize = 0;
        while i < n
            invariant
                i <= n,
                n == self.entities@.len(),
                hits@.len() == i,
                accepts(*cast),
                forall|j: int, found: spec_fn(S) -> Option<Hit<T>>|
                    0 <= j < i && #[trigger] computes(*cast, found) ==> #[trigger] hits@[j]
                        == bound(found(self.entities@[j].shape), self.entities@[j].material),
            decreases n - i,
        {
            hits.push(self.entities[i].intersect(cast));
            i += 1;
        }
        let r = nearest(hits);
        proof {
            assert forall|found: spec_fn(S) -> Option<Hit<T>>| #[trigger]
                computes(*cast, found) implies r == nearest_hit(
                entity_hits(self.entities@, found),
            ) by {
                assert(hits@ =~= entity_hits(self.entities@, found));
            }
        }
        r
    }
}

/// The order of the entities does not change what a ray finds of the scene,
/// unless two entities are hit differently at the nearest distance: of those
/// the earlier one is found, whichever it is.
pub proof fn lemma_scene_ignores_order<S, M, T>(
    entities: Seq<Entity<S, M>>,
    order: Seq<int>,
    found: spec_fn(S) -> Option<Hit<T>>,
)
    requires
        is_permutation(order, entities.len()),
        ties_agree(entity_hits(entities, found)),
    ensures
        nearest_hit(entity_hits(reordered(entities, order), found)) == nearest_hit(
            entity_hits(entities, found),
        ),
{
    let hits = entity_hits(entities, found);
    lemma_nearest_ignores_order(hits, order);
    assert(entity_hits(reordered(entities, order), found) =~= reordered(hits, order));
}

} // verus!
