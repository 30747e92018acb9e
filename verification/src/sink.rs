//! The image sink's channel quantisation.

use vstd::prelude::*;

verus! {

/// The largest level an 8-bit channel holds.
pub const CHANNEL_MAX: u32 = 255;

/// Clamps a scaled channel level into the range of one byte.
pub fn channel_byte(level: u32) -> (b: u8)
    ensures
        b as int == if level <= CHANNEL_MAX { level as int } else { CHANNEL_MAX as int },
{
    if level <= CHANNEL_MAX {
        level as u8
    } else {
        255u8
    }
}

} // verus!
