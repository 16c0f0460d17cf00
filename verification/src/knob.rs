//! Quantisation of potentiometer samples into brightness levels.

use vstd::prelude::*;
use crate::levels::{is_level, LEVELS};

verus! {

/// Largest sample that the converter is taken to deliver.
pub const SAMPLE_MAX: i16 = 0x7fff;

/// Sample that stands for the ratio 1 between the measured voltage and the
/// full scale.
pub const FULL_SCALE: u32 = 10_000;

/// Largest sample that is mapped to level 0.
pub const DARK: i16 = 1666;

/// Smallest sample that is mapped to the highest level.
pub const SATURATION: i16 = 9445;

/// The sample that a raw reading counts as: negative readings count as 0,
/// readings above `SAMPLE_MAX` as `SAMPLE_MAX`.
pub open spec fn clamp_sample(raw: int) -> int {
    if raw < 0 {
        0
    } else if raw > SAMPLE_MAX {
        SAMPLE_MAX as int
    } else {
        raw
    }
}

/// The brightness level of a raw reading.
///
/// With `ratio` the clamped sample divided by `FULL_SCALE`, the level is the
/// floor of `(LEVELS + 2) * ratio - 2`, clamped into `0 ..= LEVELS - 1`. The
/// floor of `(LEVELS + 2) * sample / FULL_SCALE` is the integer quotient
/// below, so no fraction is needed to state it.
pub open spec fn level_of(raw: int) -> int {
    let scaled = ((LEVELS + 2) * clamp_sample(raw)) / (FULL_SCALE as int) - 2;
    if scaled < 0 {
        0
    } else if scaled > LEVELS - 1 {
        LEVELS - 1
    } else {
        scaled
    }
}

/// Every reading has a brightness level, whatever its sign and size.
pub proof fn lemma_level_in_range(raw: int)
    ensures
        is_level(level_of(raw)),
{
}

/// A larger reading never has a lower level.
pub proof fn lemma_level_monotonic(low: int, high: int)
    requires
        low <= high,
    ensures
        level_of(low) <= level_of(high),
{
}

/// The readings up to `DARK`, zero and the negative ones among them, are
/// those of level 0: the lower dead zone of the potentiometer.
pub proof fn lemma_level_dark(raw: int)
    ensures
        level_of(raw) == 0 <==> raw <= DARK,
        level_of(0) == 0,
{
}

/// The readings from `SATURATION` on, the largest sample among them, are
/// those of the highest level: the upper dead zone of the potentiometer.
pub proof fn lemma_level_saturates(raw: int)
    ensures
        level_of(raw) == LEVELS - 1 <==> raw >= SATURATION,
        0 <= SATURATION <= SAMPLE_MAX,
        level_of(SAMPLE_MAX as int) == LEVELS - 1,
{
}

/// The potentiometer, as far as its readings are concerned.
pub struct Knob {}

impl Knob {
    /// Makes a knob.
    pub fn new() -> (knob: Knob) {
        Knob {}
    }

    /// Returns the brightness level that the raw reading `raw` stands for.
    pub fn measure(&self, raw: i16) -> (level: u32)
        ensures
            level == level_of(raw as int),
            level < LEVELS,
    {
        let sample: u32 = if raw < 0 { 0 } else { raw as u32 };
        let scaled: u32 = (LEVELS + 2) * sample / FULL_SCALE;
        if scaled < 2 {
            0
        } else if scaled - 2 > LEVELS - 1 {
            LEVELS - 1
        } else {
            scaled - 2
        }
    }
}

} // verus!
