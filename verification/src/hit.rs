//! What a ray finds.

use vstd::prelude::*;

verus! {

/// A place where a ray meets a surface: what is there, and how far from the
/// ray's origin it lies.
///
/// The distance is held as an integer that orders as the distance does, so
/// that two hits are compared without arithmetic on reals. For distances
/// that are floating-point numbers and not negative, the bit pattern is such
/// an integer.
#[derive(Debug, PartialEq)]
pub struct Hit<T> {
    /// The distance from the ray's origin, by its order.
    pub distance: u64,
    /// What lies at the hit.
    pub surface: T,
}

impl<T: Copy> Clone for Hit<T> {
    fn clone(&self) -> (copy: Self)
        ensures
            copy == *self,
    {
        *self
    }
}

impl<T: Copy> Copy for Hit<T> {

}

} // verus!
