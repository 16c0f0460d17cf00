//! Brightness levels and the three colour channels.

use vstd::prelude::*;

verus! {

/// Number of brightness levels. A level is an integer from 0 up to
/// `LEVELS - 1`.
pub const LEVELS: u32 = 16;

/// Index of the red channel in a triple of levels.
pub const RED: usize = 0;

/// Index of the green channel in a triple of levels.
pub const GREEN: usize = 1;

/// Index of the blue channel in a triple of levels.
pub const BLUE: usize = 2;

/// Number of colour channels.
pub const CHANNELS: usize = 3;

/// Whether `level` is a brightness level.
pub open spec fn is_level(level: int) -> bool {
    0 <= level < LEVELS
}

/// Whether `levels` holds one brightness level for each channel.
pub open spec fn are_levels(levels: Seq<u32>) -> bool {
    &&& levels.len() == CHANNELS
    &&& forall|i: int| 0 <= i < levels.len() ==> is_level(#[trigger] levels[i] as int)
}

/// Tells whether each entry of `levels` is a brightness level.
pub fn levels_valid(levels: &[u32; 3]) -> (valid: bool)
    ensures
        valid == are_levels(levels@),
{
    levels[0] < LEVELS && levels[1] < LEVELS && levels[2] < LEVELS
}

} // verus!
