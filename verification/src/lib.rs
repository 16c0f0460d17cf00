//! Brightness control for a three-colour LED driven by software pulse-width
//! modulation: the quantisation of a potentiometer sample, the record shared
//! between the input loop and the renderer, the timing of each channel's
//! pulse, and the decisions of the input loop.
//!
//! The library holds no hardware handle and never waits. Its callers sample
//! the potentiometer, read the buttons, drive the pins and sleep; the
//! library says which brightness a sample stands for, what to write to the
//! shared record, what to print, and how long each pin stays high and low.

pub mod knob;
pub mod levels;
pub mod rgb;
pub mod shared;
pub mod text;
pub mod ui;

pub use knob::Knob;
pub use levels::{BLUE, GREEN, LEVELS, RED};
pub use rgb::{Pulse, Rgb};
pub use shared::Rgbfps;
pub use ui::{Change, Idle, Ui, UiState};
