//! The closed set of waveform shapes an oscillator can produce.

use vstd::prelude::*;

verus! {

/// Waveform shape of an oscillator voice.
#[derive(Debug, PartialEq, Eq, Structural, Copy, Clone)]
pub enum WaveType {
    Sin,
    Saw,
    Triangle,
    Square,
    Pulse,
}

impl Default for WaveType {
    /// The default waveform is a sine.
    fn default() -> (r: Self)
        ensures
            r == WaveType::Sin,
    {
        WaveType::Sin
    }
}

} // verus!
