//! Which of the two crossings of a ray with a circle is the hit.
//!
//! The line of a ray meets a circle in no point, or in two that may
//! coincide: a near one and a far one, by their place along the ray. A
//! crossing counts only if it lies ahead of the ray's origin by more than
//! the tolerance.

use vstd::prelude::*;

verus! {

/// One of the two crossings of a line with a circle.
#[derive(Clone, Copy, Debug, PartialEq, Eq, Structural)]
pub enum Root {
    /// The crossing with the smaller parameter along the ray.
    Near,
    /// The crossing with the larger parameter along the ray.
    Far,
}

/// The crossing that is the hit: the near one if it lies ahead, else the far
/// one if that lies ahead; none if the line misses the circle or both
/// crossings lie behind.
pub open spec fn chosen_root(crosses: bool, near_ahead: bool, far_ahead: bool) -> Option<Root> {
    if !crosses {
        None
    } else if near_ahead {
        Some(Root::Near)
    } else if far_ahead {
        Some(Root::Far)
    } else {
        None
    }
}

/// Chooses the crossing at which a ray hits a circle. `crosses` says whether
/// the line of the ray meets the circle at all; `near_ahead` and `far_ahead`
/// say whether the near and the far crossing lie ahead of the origin by more
/// than the tolerance, and are not read where the line misses.
pub fn choose_root(crosses: bool, near_ahead: bool, far_ahead: bool) -> (r: Option<Root>)
    ensures
        r == chosen_root(crosses, near_ahead, far_ahead),
{
    if !crosses {
        None
    } else if near_ahead {
        Some(Root::Near)
    } else if far_ahead {
        Some(Root::Far)
    } else {
        None
    }
}

} // verus!
