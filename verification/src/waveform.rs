//! The display modes of the waveform pane and how a key cycles through them.

use vstd::prelude::*;
use crate::text::str_eq;

verus! {

/// What the waveform pane shows.
#[derive(Debug, Clone, Copy, PartialEq, Eq, Structural)]
pub enum WaveformMode {
    Waveform,
    Spectrum,
    Oscilloscope,
    LufsMeter,
}

/// The mode after `m`, wrapping around.
pub open spec fn next_mode(m: WaveformMode) -> WaveformMode {
    match m {
        WaveformMode::Waveform => WaveformMode::Spectrum,
        WaveformMode::Spectrum => WaveformMode::Oscilloscope,
        WaveformMode::Oscilloscope => WaveformMode::LufsMeter,
        WaveformMode::LufsMeter => WaveformMode::Waveform,
    }
}

/// The title of a mode.
pub open spec fn mode_name(m: WaveformMode) -> Seq<char> {
    match m {
        WaveformMode::Waveform => "Waveform"@,
        WaveformMode::Spectrum => "Spectrum"@,
        WaveformMode::Oscilloscope => "Oscilloscope"@,
        WaveformMode::LufsMeter => "Level Meter"@,
    }
}

impl WaveformMode {
    /// The mode after this one, wrapping around.
    pub fn next(self) -> (r: WaveformMode)
        ensures
            r == next_mode(self),
    {
        match self {
            WaveformMode::Waveform => WaveformMode::Spectrum,
            WaveformMode::Spectrum => WaveformMode::Oscilloscope,
            WaveformMode::Oscilloscope => WaveformMode::LufsMeter,
            WaveformMode::LufsMeter => WaveformMode::Waveform,
        }
    }

    /// The title of the mode.
    pub fn name(self) -> (r: &'static str)
        ensures
            r@ == mode_name(self),
    {
        match self {
            WaveformMode::Waveform => "Waveform",
            WaveformMode::Spectrum => "Spectrum",
            WaveformMode::Oscilloscope => "Oscilloscope",
            WaveformMode::LufsMeter => "Level Meter",
        }
    }
}

/// The mode after an action of the waveform pane: `cycle_mode` moves to the next
/// mode, anything else keeps it.
pub fn mode_after_action(mode: WaveformMode, action: &str) -> (r: WaveformMode)
    ensures
        r == if action@ == "cycle_mode"@ { next_mode(mode) } else { mode },
{
    if str_eq(action, "cycle_mode") {
        mode.next()
    } else {
        mode
    }
}

/// Cycling four times comes back to the same mode, and the four modes in between
/// are all different.
pub proof fn lemma_mode_cycle(m: WaveformMode)
    ensures
        next_mode(next_mode(next_mode(next_mode(m)))) == m,
        next_mode(m) != m,
        next_mode(next_mode(m)) != m,
        next_mode(next_mode(next_mode(m))) != m,
{
}

} // verus!
