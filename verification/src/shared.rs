//! The record through which the input loop tells the renderer what to show.
//!
//! The record itself is plain data. Whoever shares it between tasks guards it
//! with a lock and calls one accessor per acquisition; every accessor returns
//! without waiting, so the lock is never held across a suspension.

use vstd::prelude::*;
use crate::levels::{are_levels, LEVELS};

verus! {

/// Frame rate, in frames per second, of a freshly made record.
pub const DEFAULT_FRAME_RATE: u64 = 100;

/// What a record of brightness levels and frame rate holds: one level for
/// each of the channels red, green and blue, in that order, and the number of
/// frames per second.
pub struct Settings {
    /// The levels of red, green and blue.
    pub levels: Seq<u32>,
    /// Frames per second.
    pub frame_rate: nat,
}

impl Settings {
    /// The settings at startup: full brightness on every channel, at the
    /// default frame rate.
    pub open spec fn initial() -> Settings {
        Settings {
            levels: seq![(LEVELS - 1) as u32, (LEVELS - 1) as u32, (LEVELS - 1) as u32],
            frame_rate: DEFAULT_FRAME_RATE as nat,
        }
    }

    /// These settings with the three levels replaced by `levels`.
    pub open spec fn with_levels(self, levels: Seq<u32>) -> Settings {
        Settings { levels, frame_rate: self.frame_rate }
    }

    /// These settings with the frame rate replaced by `frame_rate`.
    pub open spec fn with_frame_rate(self, frame_rate: nat) -> Settings {
        Settings { levels: self.levels, frame_rate }
    }

    /// These settings with the level of channel `led` replaced by `level`.
    pub open spec fn with_level(self, led: int, level: u32) -> Settings {
        self.with_levels(self.levels.update(led, level))
    }

    /// Whether every channel holds a brightness level and the frame rate is
    /// positive.
    pub open spec fn valid(self) -> bool {
        are_levels(self.levels) && self.frame_rate > 0
    }

    /// A level written is the level read back, and writing the levels leaves
    /// the frame rate as it was.
    pub proof fn lemma_levels_round_trip(self, levels: Seq<u32>)
        ensures
            self.with_levels(levels).levels == levels,
            self.with_levels(levels).frame_rate == self.frame_rate,
    {
    }

    /// A frame rate written is the frame rate read back, and writing the
    /// frame rate leaves the levels as they were.
    pub proof fn lemma_frame_rate_round_trip(self, frame_rate: nat)
        ensures
            self.with_frame_rate(frame_rate).frame_rate == frame_rate,
            self.with_frame_rate(frame_rate).levels == self.levels,
    {
    }
}

/// Brightness levels of the three channels and the frame rate, as shared
/// between the input loop, which writes them, and the renderer, which reads
/// them.
pub struct Rgbfps {
    rgb_levels: [u32; 3],
    frame_rate: u64,
}

impl View for Rgbfps {
    type V = Settings;

    closed spec fn view(&self) -> Settings {
        Settings { levels: self.rgb_levels@, frame_rate: self.frame_rate as nat }
    }
}

impl Rgbfps {
    /// Makes the record with full brightness on every channel and the default
    /// frame rate.
    pub fn new() -> (shared: Rgbfps)
        ensures
            shared@ == Settings::initial(),
    {
        let shared = Rgbfps {
            rgb_levels: [LEVELS - 1, LEVELS - 1, LEVELS - 1],
            frame_rate: DEFAULT_FRAME_RATE,
        };
        assert(shared@.levels =~= Settings::initial().levels);
        shared
    }

    /// Reads the three levels.
    pub fn get_rgb_levels(&self) -> (levels: [u32; 3])
        ensures
            levels@ == self@.levels,
    {
        self.rgb_levels
    }

    /// Hands the three levels to `setter`, which changes them in place. The
    /// frame rate stays as it is.
    pub fn set_rgb_levels<F>(&mut self, setter: F) where F: FnOnce(&mut [u32; 3])
        requires
            forall|levels: &mut [u32; 3]|
                levels@ == old(self)@.levels ==> call_requires(setter, (levels,)),
        ensures
            exists|levels: &mut [u32; 3]|
                {
                    &&& levels@ == old(self)@.levels
                    &&& #[trigger] call_ensures(setter, (levels,), ())
                    &&& final(self)@ == old(self)@.with_levels(final(levels)@)
                },
    {
        assert(self.rgb_levels@ == self@.levels);
        setter(&mut self.rgb_levels);
    }

    /// Reads the frame rate.
    pub fn get_frame_rate(&self) -> (frame_rate: u64)
        ensures
            frame_rate == self@.frame_rate,
    {
        self.frame_rate
    }

    /// Hands the frame rate to `setter`, which changes it in place. The
    /// levels stay as they are.
    pub fn set_frame_rate<F>(&mut self, setter: F) where F: FnOnce(&mut u64)
        requires
            forall|frame_rate: &mut u64|
                *frame_rate == old(self)@.frame_rate ==> call_requires(setter, (frame_rate,)),
        ensures
            exists|frame_rate: &mut u64|
                {
                    &&& *frame_rate == old(self)@.frame_rate
                    &&& #[trigger] call_ensures(setter, (frame_rate,), ())
                    &&& final(self)@ == old(self)@.with_frame_rate(*final(frame_rate) as nat)
                },
    {
        setter(&mut self.frame_rate);
    }
}

} // verus!
