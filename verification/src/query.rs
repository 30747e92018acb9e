//! How the functions that a caller hands in are read in contracts.
//!
//! The geometry of a primitive is the caller's: it is handed in as a
//! function that is asked about one thing, or about two. Such a function
//! must accept every question. A contract then holds for every mathematical
//! function that the caller's function computes.

use vstd::prelude::*;

verus! {

/// `f` can be asked about every `a`.
pub open spec fn accepts<A, R, F: Fn(&A) -> R>(f: F) -> bool {
    forall|a: &A| #[trigger] f.requires((a,))
}

/// `f` computes `m`: whatever `f` answers about an `a` is `m(a)`.
pub open spec fn computes<A, R, F: Fn(&A) -> R>(f: F, m: spec_fn(A) -> R) -> bool {
    forall|a: &A, r: R| #[trigger] f.ensures((a,), r) ==> r == m(*a)
}

/// `f` can be asked about every `a` and `b`.
pub open spec fn accepts_both<A, B, R, F: Fn(&A, &B) -> R>(f: F) -> bool {
    forall|a: &A, b: &B| #[trigger] f.requires((a, b))
}

/// `f` computes `m`: whatever `f` answers about an `a` and a `b` is
/// `m(a, b)`.
pub open spec fn computes_both<A, B, R, F: Fn(&A, &B) -> R>(f: F, m: spec_fn(A, B) -> R) -> bool {
    forall|a: &A, b: &B, r: R| #[trigger] f.ensures((a, b), r) ==> r == m(*a, *b)
}

} // verus!
