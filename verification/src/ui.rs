//! The decisions of the input loop.
//!
//! The loop keeps its own copy of the settings. Each period it is handed one
//! potentiometer reading and the state of the two buttons, changes its copy
//! as the pressed buttons say, and answers with what has to be published: the
//! text of a status report and the values to write to the shared record. It
//! answers with nothing where its copy did not change.

use vstd::prelude::*;
use vstd::string::StringExecFns;
use crate::knob::{level_of, Knob};
use crate::levels::{is_level, BLUE, CHANNELS, GREEN, LEVELS, RED};
use crate::shared::{Rgbfps, Settings, DEFAULT_FRAME_RATE};
use crate::text::{decimal, push_decimal};

verus! {

/// What the input loop does with a reading while neither button is pressed.
#[derive(Clone, Copy, Debug, PartialEq, Eq, Structural)]
pub enum Idle {
    /// The reading is ignored.
    Hold,
    /// The reading sets the frame rate.
    FrameRate,
}

/// The channel that a combination of pressed buttons selects: both buttons
/// select red, button A alone blue, button B alone green, and no button
/// selects no channel.
pub open spec fn chord_channel(a_pressed: bool, b_pressed: bool) -> Option<usize> {
    if a_pressed && b_pressed {
        Some(RED)
    } else if a_pressed {
        Some(BLUE)
    } else if b_pressed {
        Some(GREEN)
    } else {
        None
    }
}

/// The frame rate that a level selects: ten frames per second for level 0,
/// and ten more for each level above it.
pub open spec fn frame_rate_of(level: int) -> int {
    10 * (level + 1)
}

/// The settings of the input loop after its first reading, of brightness
/// `level`: every channel is at that level, and where an idle reading sets
/// the frame rate, this one does so too.
pub open spec fn started(settings: Settings, idle: Idle, level: u32) -> Settings {
    let lit = settings.with_levels(seq![level, level, level]);
    match idle {
        Idle::Hold => lit,
        Idle::FrameRate => lit.with_frame_rate(frame_rate_of(level as int) as nat),
    }
}

/// The settings of the input loop after a period in which the reading had
/// brightness `level` and the buttons were pressed as given.
pub open spec fn polled(
    settings: Settings,
    idle: Idle,
    level: u32,
    a_pressed: bool,
    b_pressed: bool,
) -> Settings {
    match chord_channel(a_pressed, b_pressed) {
        Some(led) => settings.with_level(led as int, level),
        None => match idle {
            Idle::Hold => settings,
            Idle::FrameRate => settings.with_frame_rate(frame_rate_of(level as int) as nat),
        },
    }
}

/// Whether the reading and the buttons of a period ask for something other
/// than what the input loop holds: another level for the selected channel,
/// or, with no button pressed and an idle reading setting the frame rate,
/// another frame rate.
pub open spec fn differs(
    settings: Settings,
    idle: Idle,
    level: u32,
    a_pressed: bool,
    b_pressed: bool,
) -> bool {
    match chord_channel(a_pressed, b_pressed) {
        Some(led) => level != settings.levels[led as int],
        None => idle == Idle::FrameRate && frame_rate_of(level as int) != settings.frame_rate,
    }
}

/// A period changes the settings of the input loop exactly when it asks for
/// something other than what the loop holds.
pub proof fn lemma_polled_differs(
    settings: Settings,
    idle: Idle,
    level: u32,
    a_pressed: bool,
    b_pressed: bool,
)
    requires
        settings.levels.len() == CHANNELS,
    ensures
        differs(settings, idle, level, a_pressed, b_pressed) <==> polled(
            settings,
            idle,
            level,
            a_pressed,
            b_pressed,
        ) != settings,
{
    match chord_channel(a_pressed, b_pressed) {
        Some(led) => {
            let after = settings.with_level(led as int, level);
            if level == settings.levels[led as int] {
                assert(after.levels =~= settings.levels);
            } else {
                assert(after.levels[led as int] != settings.levels[led as int]);
            }
        },
        None => {},
    }
}

/// One line of a status report: a label, a number in decimal notation and a
/// line feed.
pub open spec fn status_line(label: Seq<char>, n: nat) -> Seq<char> {
    label + decimal(n) + "\n"@
}

/// The status report of `settings`: an empty line, one line for each channel
/// with its level, and one line with the frame rate.
pub open spec fn status_text(settings: Settings) -> Seq<char> {
    "\n"@ + status_line("red: "@, settings.levels[RED as int] as nat) + status_line(
        "green: "@,
        settings.levels[GREEN as int] as nat,
    ) + status_line("blue: "@, settings.levels[BLUE as int] as nat) + status_line(
        "frame rate: "@,
        settings.frame_rate,
    )
}

/// Appends one line of a status report to `text`.
fn push_status_line(text: &mut String, label: &str, n: u64)
    ensures
        final(text)@ == old(text)@ + status_line(label@, n as nat),
{
    text.append(label);
    push_decimal(text, n);
    text.append("\n");
    assert(text@ =~= old(text)@ + status_line(label@, n as nat));
}

/// The input loop's own copy of the settings.
pub struct UiState {
    levels: [u32; 3],
    frame_rate: u64,
}

impl View for UiState {
    type V = Settings;

    closed spec fn view(&self) -> Settings {
        Settings { levels: self.levels@, frame_rate: self.frame_rate as nat }
    }
}

impl Default for UiState {
    /// Full brightness on every channel, at the default frame rate.
    fn default() -> (state: UiState)
        ensures
            state@ == Settings::initial(),
            state.wf(),
    {
        let state = UiState {
            levels: [LEVELS - 1, LEVELS - 1, LEVELS - 1],
            frame_rate: DEFAULT_FRAME_RATE,
        };
        assert(state@.levels =~= Settings::initial().levels);
        state
    }
}

impl UiState {
    /// Whether every channel holds a brightness level and the frame rate is
    /// positive.
    pub open spec fn wf(&self) -> bool {
        self@.valid()
    }

    /// Returns the status report of these settings.
    pub fn show(&self) -> (text: String)
        ensures
            text@ == status_text(self@),
    {
        let mut text = String::new();
        text.append("\n");
        push_status_line(&mut text, "red: ", self.levels[0] as u64);
        push_status_line(&mut text, "green: ", self.levels[1] as u64);
        push_status_line(&mut text, "blue: ", self.levels[2] as u64);
        push_status_line(&mut text, "frame rate: ", self.frame_rate);
        assert(text@ =~= status_text(self@));
        text
    }

    /// Returns the three levels.
    pub fn levels(&self) -> (levels: [u32; 3])
        ensures
            levels@ == self@.levels,
    {
        self.levels
    }

    /// Returns the frame rate.
    pub fn frame_rate(&self) -> (frame_rate: u64)
        ensures
            frame_rate == self@.frame_rate,
    {
        self.frame_rate
    }
}

/// What the input loop asks to be published after its settings changed.
pub struct Change {
    /// The status report to print.
    pub status: String,
    /// The levels to write to the shared record, if any.
    pub levels: Option<[u32; 3]>,
    /// The frame rate to write to the shared record, if any.
    pub frame_rate: Option<u64>,
}

impl Change {
    /// Whether this change reports `settings` and carries their levels, where
    /// `with_levels` says so, and their frame rate, where `with_frame_rate`
    /// says so, and nothing else.
    pub open spec fn publishes(
        &self,
        settings: Settings,
        with_levels: bool,
        with_frame_rate: bool,
    ) -> bool {
        &&& self.status@ == status_text(settings)
        &&& if with_levels {
            self.levels matches Some(levels) && levels@ == settings.levels
        } else {
            self.levels is None
        }
        &&& if with_frame_rate {
            self.frame_rate matches Some(frame_rate) && frame_rate == settings.frame_rate
        } else {
            self.frame_rate is None
        }
    }

    /// The shared settings after this change is written to them.
    pub open spec fn applied_to(&self, shared: Settings) -> Settings {
        let lit = match self.levels {
            Some(levels) => shared.with_levels(levels@),
            None => shared,
        };
        match self.frame_rate {
            Some(frame_rate) => lit.with_frame_rate(frame_rate as nat),
            None => lit,
        }
    }

    /// Writes to the shared record what this change carries, and leaves the
    /// rest of the record as it is.
    pub fn apply(&self, shared: &mut Rgbfps)
        ensures
            final(shared)@ == self.applied_to(old(shared)@),
    {
        match self.levels {
            Some(levels) => {
                let overwrite = |rgb: &mut [u32; 3]|
                    ensures
                        final(rgb)@ == levels@,
                    {
                        *rgb = levels;
                    };
                shared.set_rgb_levels(overwrite);
            },
            None => {},
        }
        match self.frame_rate {
            Some(frame_rate) => {
                let overwrite = |shared_rate: &mut u64|
                    ensures
                        frame_rate == *final(shared_rate),
                    {
                        *shared_rate = frame_rate;
                    };
                shared.set_frame_rate(overwrite);
            },
            None => {},
        }
    }

    /// A change that carries the levels of the input loop leaves the shared
    /// record with those levels, and one that carries its frame rate leaves
    /// the shared record with that frame rate; what it does not carry stays
    /// as it was in the shared record.
    pub proof fn lemma_apply_publishes(
        &self,
        settings: Settings,
        with_levels: bool,
        with_frame_rate: bool,
        shared: Settings,
    )
        requires
            self.publishes(settings, with_levels, with_frame_rate),
        ensures
            self.applied_to(shared).levels == if with_levels {
                settings.levels
            } else {
                shared.levels
            },
            self.applied_to(shared).frame_rate == if with_frame_rate {
                settings.frame_rate
            } else {
                shared.frame_rate
            },
    {
    }
}

/// What the input loop holds, as a mathematical value.
pub struct Panel {
    /// The loop's own copy of the settings.
    pub settings: Settings,
    /// What the loop does while neither button is pressed.
    pub idle: Idle,
}

/// The input loop: the potentiometer, the loop's own copy of the settings,
/// and what it does while neither button is pressed.
pub struct Ui {
    knob: Knob,
    state: UiState,
    idle: Idle,
}

impl View for Ui {
    type V = Panel;

    closed spec fn view(&self) -> Panel {
        Panel { settings: self.state@, idle: self.idle }
    }
}

impl Ui {
    /// Whether the loop's settings are valid.
    pub open spec fn wf(&self) -> bool {
        self@.settings.valid()
    }

    /// Makes an input loop with full brightness on every channel and the
    /// default frame rate.
    pub fn new(knob: Knob, idle: Idle) -> (ui: Ui)
        ensures
            ui.wf(),
            ui@ == (Panel { settings: Settings::initial(), idle }),
    {
        Ui { knob, state: UiState::default(), idle }
    }

    /// Returns the loop's own copy of the settings.
    pub fn state(&self) -> (state: &UiState)
        ensures
            state@ == self@.settings,
    {
        &self.state
    }

    /// Takes the first reading: sets every channel to its level and, where an
    /// idle reading sets the frame rate, the frame rate too. What was set is
    /// published whether or not it differs from what the loop held.
    pub fn start(&mut self, raw: i16) -> (change: Change)
        requires
            old(self).wf(),
        ensures
            final(self).wf(),
            final(self)@.idle == old(self)@.idle,
            final(self)@.settings == started(
                old(self)@.settings,
                old(self)@.idle,
                level_of(raw as int) as u32,
            ),
            change.publishes(final(self)@.settings, true, old(self)@.idle == Idle::FrameRate),
    {
        let level = self.knob.measure(raw);
        self.state.levels = [level, level, level];
        assert(self.state.levels@ =~= seq![level, level, level]);
        let frame_rate = match self.idle {
            Idle::Hold => None,
            Idle::FrameRate => {
                self.state.frame_rate = 10 * (level as u64 + 1);
                Some(self.state.frame_rate)
            },
        };
        Change { status: self.state.show(), levels: Some(self.state.levels), frame_rate }
    }

    /// Runs one period of the input loop on the reading `raw` and the state
    /// of the buttons. With a button pressed, the reading's level goes to the
    /// channel that the buttons select; with none pressed, it is ignored or
    /// sets the frame rate, as the loop was made. A change is returned
    /// exactly when the period asks for something other than what the loop
    /// held, and it carries what was set, the levels or the frame rate.
    pub fn run(&mut self, raw: i16, a_pressed: bool, b_pressed: bool) -> (change: Option<Change>)
        requires
            old(self).wf(),
        ensures
            final(self).wf(),
            final(self)@.idle == old(self)@.idle,
            final(self)@.settings == polled(
                old(self)@.settings,
                old(self)@.idle,
                level_of(raw as int) as u32,
                a_pressed,
                b_pressed,
            ),
            change is Some <==> differs(
                old(self)@.settings,
                old(self)@.idle,
                level_of(raw as int) as u32,
                a_pressed,
                b_pressed,
            ),
            change matches Some(change) ==> change.publishes(
                final(self)@.settings,
                a_pressed || b_pressed,
                !a_pressed && !b_pressed,
            ),
    {
        let level = self.knob.measure(raw);
        match (a_pressed, b_pressed) {
            (true, true) => self.update_led(level, RED),
            (true, false) => self.update_led(level, BLUE),
            (false, true) => self.update_led(level, GREEN),
            (false, false) => match self.idle {
                Idle::Hold => None,
                Idle::FrameRate => self.update_frame_rate(level as u64),
            },
        }
    }

    /// Sets channel `led` to `level`. The change is returned exactly when the
    /// channel was at another level.
    pub fn update_led(&mut self, level: u32, led: usize) -> (change: Option<Change>)
        requires
            old(self).wf(),
            is_level(level as int),
            led < CHANNELS,
        ensures
            final(self).wf(),
            final(self)@.idle == old(self)@.idle,
            final(self)@.settings == old(self)@.settings.with_level(led as int, level),
            change is Some <==> level != old(self)@.settings.levels[led as int],
            change matches Some(change) ==> change.publishes(final(self)@.settings, true, false),
    {
        if level != self.state.levels[led] {
            self.state.levels[led] = level;
            Some(Change { status: self.state.show(), levels: Some(self.state.levels), frame_rate: None })
        } else {
            assert(self@.settings.levels =~= self@.settings.levels.update(led as int, level));
            None
        }
    }

    /// Sets the frame rate to the one that `level` selects. The change is
    /// returned exactly when the frame rate was another.
    pub fn update_frame_rate(&mut self, level: u64) -> (change: Option<Change>)
        requires
            old(self).wf(),
            is_level(level as int),
        ensures
            final(self).wf(),
            final(self)@.idle == old(self)@.idle,
            final(self)@.settings == old(self)@.settings.with_frame_rate(
                frame_rate_of(level as int) as nat,
            ),
            change is Some <==> frame_rate_of(level as int) != old(self)@.settings.frame_rate,
            change matches Some(change) ==> change.publishes(final(self)@.settings, false, true),
    {
        let frame_rate = 10 * (level + 1);
        if frame_rate != self.state.frame_rate {
            self.state.frame_rate = frame_rate;
            Some(Change { status: self.state.show(), levels: None, frame_rate: Some(frame_rate) })
        } else {
            None
        }
    }
}

} // verus!
