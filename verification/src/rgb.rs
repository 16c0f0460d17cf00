//! Timing of the software pulse-width modulation.
//!
//! One frame lights the channels red, green and blue in turn. A channel's
//! share of the frame is `LEVELS` ticks long: the pin is high for as many
//! ticks as the channel's level says and low for the rest, so that a frame
//! takes the same time whatever the levels are.

use vstd::prelude::*;
use crate::levels::{are_levels, is_level, CHANNELS, LEVELS};

verus! {

/// Microseconds in a second.
pub const MICROS_PER_SECOND: u64 = 1_000_000;

/// Longest tick, in microseconds: that of one frame per second.
pub const MAX_TICK_TIME: u64 = 20_833;

/// The length of a tick in microseconds at `frame_rate` frames per second:
/// a second divided among the frames, the channels of each frame and the
/// ticks of each channel, rounded down.
pub open spec fn tick_time_of(frame_rate: int) -> int {
    MICROS_PER_SECOND as int / (CHANNELS * frame_rate * LEVELS)
}

/// How one channel spends its share of a frame.
#[derive(Clone, Copy, Debug, PartialEq, Eq, Structural)]
pub struct Pulse {
    /// Whether the pin is driven high at all.
    pub lit: bool,
    /// Microseconds for which the pin stays high; 0 where it is not lit.
    pub on_micros: u64,
    /// Microseconds to wait with the pin low.
    pub off_micros: u64,
}

/// The pulse of a channel at brightness `level` when a tick is `tick_time`
/// microseconds long.
pub open spec fn pulse_of(level: int, tick_time: int) -> Pulse {
    Pulse {
        lit: level > 0,
        on_micros: (level * tick_time) as u64,
        off_micros: ((LEVELS - level) * tick_time) as u64,
    }
}

/// At a higher frame rate a tick is never longer.
pub proof fn lemma_tick_time_monotonic(slow: int, fast: int)
    requires
        0 < slow <= fast,
    ensures
        tick_time_of(slow) >= tick_time_of(fast),
        0 <= tick_time_of(fast),
        tick_time_of(slow) <= MAX_TICK_TIME,
{
    let a = CHANNELS * slow * LEVELS;
    let b = CHANNELS * fast * LEVELS;
    assert(0 < a <= b);
    let m = MICROS_PER_SECOND as int;
    lemma_div_bounds(m, a);
    lemma_div_bounds(m, b);
    let qa = m / a;
    let qb = m / b;
    if qa < qb {
        assert(a * (qa + 1) <= b * qb) by (nonlinear_arith)
            requires
                0 < a <= b,
                0 <= qa,
                qa + 1 <= qb,
        ;
    }
    assert(48 * tick_time_of(slow) <= m) by (nonlinear_arith)
        requires
            48 <= a,
            0 <= qa,
            a * qa <= m,
            qa == tick_time_of(slow),
    ;
}

/// The quotient of a non-negative number by a positive one, multiplied by the
/// divisor, falls short of the number by less than the divisor.
proof fn lemma_div_bounds(m: int, d: int)
    requires
        0 <= m,
        0 < d,
    ensures
        0 <= m / d,
        d * (m / d) <= m < d * (m / d + 1),
{
    vstd::arithmetic::div_mod::lemma_fundamental_div_mod(m, d);
    vstd::arithmetic::div_mod::lemma_mod_bound(m, d);
    vstd::arithmetic::div_mod::lemma_div_pos_is_pos(m, d);
    assert(d * (m / d + 1) == d * (m / d) + d) by (nonlinear_arith);
}

/// The ticks of all frames of a second fill the second up to what the
/// rounding of the tick leaves: less than one microsecond for each tick.
pub proof fn lemma_tick_time_round_trip(frame_rate: int)
    requires
        0 < frame_rate,
    ensures
        CHANNELS * LEVELS * tick_time_of(frame_rate) * frame_rate <= MICROS_PER_SECOND,
        MICROS_PER_SECOND - CHANNELS * LEVELS * tick_time_of(frame_rate) * frame_rate
            < CHANNELS * LEVELS * frame_rate,
{
    let d = CHANNELS * frame_rate * LEVELS;
    let m = MICROS_PER_SECOND as int;
    let q = tick_time_of(frame_rate);
    lemma_div_bounds(m, d);
    assert(CHANNELS * LEVELS * q * frame_rate == d * q) by (nonlinear_arith)
        requires
            d == CHANNELS * frame_rate * LEVELS,
    ;
    assert(d * (q + 1) == d * q + d) by (nonlinear_arith);
    assert(CHANNELS * LEVELS * frame_rate == d) by (nonlinear_arith)
        requires
            d == CHANNELS * frame_rate * LEVELS,
    ;
}

/// Whatever its level, a channel's time high and low add up to `LEVELS`
/// ticks.
pub proof fn lemma_pulse_total(level: int, tick_time: int)
    requires
        is_level(level),
        0 <= tick_time <= MAX_TICK_TIME,
    ensures
        pulse_of(level, tick_time).on_micros + pulse_of(level, tick_time).off_micros
            == LEVELS * tick_time,
        pulse_of(level, tick_time).on_micros == level * tick_time,
        pulse_of(level, tick_time).off_micros == (LEVELS - level) * tick_time,
{
    lemma_pulse_fits(level, tick_time);
    assert(level * tick_time + (LEVELS - level) * tick_time == LEVELS * tick_time)
        by (nonlinear_arith);
}

/// Both parts of a pulse fit in 64 bits.
proof fn lemma_pulse_fits(level: int, tick_time: int)
    requires
        is_level(level),
        0 <= tick_time <= MAX_TICK_TIME,
    ensures
        0 <= level * tick_time <= LEVELS * MAX_TICK_TIME,
        0 <= (LEVELS - level) * tick_time <= LEVELS * MAX_TICK_TIME,
{
    assert(0 <= level * tick_time <= LEVELS * MAX_TICK_TIME) by (nonlinear_arith)
        requires
            0 <= level <= LEVELS,
            0 <= tick_time <= MAX_TICK_TIME,
    ;
    assert(0 <= (LEVELS - level) * tick_time <= LEVELS * MAX_TICK_TIME) by (nonlinear_arith)
        requires
            0 <= LEVELS - level <= LEVELS,
            0 <= tick_time <= MAX_TICK_TIME,
    ;
}

/// What the renderer holds, as a mathematical value.
pub struct Timing {
    /// The levels that the current frame shows.
    pub levels: Seq<u32>,
    /// Microseconds in a tick.
    pub tick_time: nat,
}

/// The renderer: the levels of the frame that it is showing, and the length
/// of a tick, fixed when it is made.
pub struct Rgb {
    levels: [u32; 3],
    tick_time: u64,
}

impl View for Rgb {
    type V = Timing;

    closed spec fn view(&self) -> Timing {
        Timing { levels: self.levels@, tick_time: self.tick_time as nat }
    }
}

impl Rgb {
    /// Whether the renderer holds a brightness level for each channel and a
    /// tick that some frame rate gives.
    pub open spec fn wf(&self) -> bool {
        &&& are_levels(self@.levels)
        &&& self@.tick_time <= MAX_TICK_TIME
    }

    /// Returns the length of a tick in microseconds at `frame_rate` frames
    /// per second. The last clause says the same without a division: the 48
    /// ticks of each frame of a second take up the million microseconds, all
    /// but a rest too short for one more microsecond in each.
    pub fn frame_tick_time(frame_rate: u64) -> (tick_time: u64)
        requires
            frame_rate > 0,
        ensures
            tick_time == tick_time_of(frame_rate as int),
            tick_time <= MAX_TICK_TIME,
            48 * frame_rate * tick_time <= 1_000_000 < 48 * frame_rate * (tick_time + 1),
    {
        proof {
            lemma_tick_time_monotonic(1, frame_rate as int);
            lemma_tick_time_round_trip(frame_rate as int);
            let q = tick_time_of(frame_rate as int);
            assert(CHANNELS * LEVELS * q * frame_rate == 48 * frame_rate * q) by (nonlinear_arith);
            assert(48 * frame_rate * (q + 1) == 48 * frame_rate * q + 48 * frame_rate)
                by (nonlinear_arith);
        }
        if frame_rate > MICROS_PER_SECOND {
            proof {
                let d = CHANNELS * frame_rate * LEVELS;
                lemma_div_bounds(MICROS_PER_SECOND as int, d);
                let q = MICROS_PER_SECOND as int / d;
                if q >= 1 {
                    assert(d * q >= d) by (nonlinear_arith)
                        requires
                            d > 0,
                            q >= 1,
                    ;
                }
            }
            0
        } else {
            MICROS_PER_SECOND / (3 * frame_rate * (LEVELS as u64))
        }
    }

    /// Makes a renderer for `frame_rate` frames per second. Until the first
    /// frame it holds level 0 for every channel. The last clause bounds the
    /// tick as that of `frame_tick_time` does.
    pub fn new(frame_rate: u64) -> (rgb: Rgb)
        requires
            frame_rate > 0,
        ensures
            rgb.wf(),
            rgb@.levels == seq![0u32, 0u32, 0u32],
            rgb@.tick_time == tick_time_of(frame_rate as int),
            48 * frame_rate * rgb@.tick_time <= 1_000_000 < 48 * frame_rate * (rgb@.tick_time + 1),
    {
        let tick_time = Self::frame_tick_time(frame_rate);
        let rgb = Rgb { levels: [0; 3], tick_time };
        assert(rgb@.levels =~= seq![0u32, 0u32, 0u32]);
        rgb
    }

    /// Returns the pulse of channel `led` in the current frame: the pin is
    /// driven high only for a level above 0, for as many ticks as the level
    /// says, and is then low for the rest of the channel's `LEVELS` ticks.
    pub fn step(&self, led: usize) -> (pulse: Pulse)
        requires
            self.wf(),
            led < CHANNELS,
        ensures
            pulse == pulse_of(self@.levels[led as int] as int, self@.tick_time as int),
            pulse.lit <==> self@.levels[led as int] > 0,
            pulse.on_micros == self@.levels[led as int] * self@.tick_time,
            pulse.off_micros == (LEVELS - self@.levels[led as int]) * self@.tick_time,
            pulse.on_micros + pulse.off_micros == LEVELS * self@.tick_time,
    {
        let level = self.levels[led];
        proof {
            assert(is_level(self@.levels[led as int] as int));
            lemma_pulse_total(level as int, self.tick_time as int);
            lemma_pulse_fits(level as int, self.tick_time as int);
        }
        let on_micros = level as u64 * self.tick_time;
        let rest = LEVELS - level;
        let off_micros = rest as u64 * self.tick_time;
        Pulse { lit: level > 0, on_micros, off_micros }
    }

    /// Starts a frame that shows `levels`, and returns the pulses of the
    /// channels in the order in which they are lit: red, green, blue.
    pub fn run(&mut self, levels: [u32; 3]) -> (frame: [Pulse; 3])
        requires
            old(self).wf(),
            are_levels(levels@),
        ensures
            final(self).wf(),
            final(self)@ == (Timing { levels: levels@, tick_time: old(self)@.tick_time }),
            forall|led: int|
                0 <= led < CHANNELS ==> #[trigger] frame@[led] == pulse_of(
                    levels@[led] as int,
                    old(self)@.tick_time as int,
                ),
    {
        self.levels = levels;
        let red = self.step(0);
        let green = self.step(1);
        let blue = self.step(2);
        [red, green, blue]
    }
}

} // verus!
