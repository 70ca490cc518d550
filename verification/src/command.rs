//! Value types flowing through the per-tick pipeline: the indicator command,
//! the HID-shaped reports, and the keyboard state summary produced once per
//! scan cycle by the external keymap engine.

use vstd::prelude::*;

verus! {

/// A visual pattern that the indicator driver can display.
#[derive(Clone, Copy, Debug, PartialEq, Eq, Structural)]
pub enum Pattern {
    /// A solid colour, given as red, green and blue intensities.
    SolidColor(u8, u8, u8),
}

/// The discrete instruction describing the desired indicator output.
/// Two commands are equal iff they are the same variant and, for `Start`,
/// carry the same pattern.
#[derive(Clone, Copy, Debug, PartialEq, Eq, Structural)]
pub enum IndicatorCommand {
    /// Return to the idle/off appearance.
    Reset,
    /// Start displaying the given pattern.
    Start(Pattern),
}

impl IndicatorCommand {
    /// True iff this command returns the indicator to its idle appearance.
    /// The indicator task drives its LED cutoff line high exactly for
    /// `Reset` and low for any `Start` command.
    pub fn is_reset(&self) -> (r: bool)
        ensures
            r == (*self is Reset),
    {
        match self {
            IndicatorCommand::Reset => true,
            IndicatorCommand::Start(_) => false,
        }
    }
}

/// A HID-shaped keyboard report: modifier bits and up to six concurrently
/// pressed key codes (a zero byte marks an empty slot).
#[derive(Clone, Copy, Debug, PartialEq, Eq)]
pub struct KeyboardReport {
    pub modifier: u8,
    pub keycodes: [u8; 6],
}

/// A HID-shaped mouse report: button bits, relative movement and wheel
/// deltas.
#[derive(Clone, Copy, Debug, PartialEq, Eq)]
pub struct MouseReport {
    pub buttons: u8,
    pub x: i8,
    pub y: i8,
    pub wheel: i8,
    pub pan: i8,
}

/// A per-tick snapshot of the keyboard state, produced by the external
/// keymap engine. The pipeline only reads it.
#[derive(Clone, Copy, Debug)]
pub struct KeyboardStateSummary {
    /// The highest currently active layer index.
    pub highest_layer: u8,
    /// The keyboard report computed this tick, if any.
    pub keyboard_report: Option<KeyboardReport>,
    /// The mouse report computed this tick, if any.
    pub mouse_report: Option<MouseReport>,
}

} // verus!
