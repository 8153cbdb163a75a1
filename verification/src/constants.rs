//! Engine-wide constants and the per-slot oscillator configuration.

use vstd::prelude::*;

use crate::wavetype::WaveType;

verus! {

/// Number of audio samples produced per second.
pub const SAMPLE_RATE: u64 = 44100;

/// Number of interleaved audio channels in the output.
pub const NUM_CHANNELS: u16 = 1;

/// Upper bound on every timestamp and duration the engine works with, in
/// microseconds (about twelve days). Keeping times below this bound keeps
/// every envelope product inside 64 bits.
pub const TIME_MAX_MICROS: u64 = 0x100_0000_0000;

/// Capacity of the queue of released-but-still-sounding notes: the oldest
/// releasing note is evicted when the bound is exceeded, so per-sample work
/// stays bounded.
pub const MAX_NOTES: usize = 16;

/// Number of configurable sound-generator oscillator slots.
pub const NUM_OSCILLATORS: usize = 3;

/// The most unison voices one oscillator slot may hold for one note.
pub const MAX_UNISON: i64 = 16;

/// Identifier of one of the sound generator's oscillator slots.
#[derive(Debug, PartialEq, Eq, Structural, Copy, Clone)]
pub enum OscNumber {
    Osc1,
    Osc2,
    Osc3,
}

impl OscNumber {
    /// The position of this slot in the per-slot parameter array.
    pub open spec fn index_spec(self) -> int {
        match self {
            OscNumber::Osc1 => 0,
            OscNumber::Osc2 => 1,
            OscNumber::Osc3 => 2,
        }
    }

    /// Computes `index_spec`: the position of this slot, always below
    /// `NUM_OSCILLATORS`.
    pub fn index(self) -> (i: usize)
        ensures
            i == self.index_spec(),
            i < NUM_OSCILLATORS,
    {
        match self {
            OscNumber::Osc1 => 0,
            OscNumber::Osc2 => 1,
            OscNumber::Osc3 => 2,
        }
    }
}

/// Configuration of the shared low-frequency oscillator.
#[derive(Copy, Clone)]
pub struct LfoParams {
    pub enabled: bool,
    pub wave_type: WaveType,
    /// LFO frequency in milli-hertz.
    pub frequency_mhz: u64,
}

impl Default for LfoParams {
    /// A disabled sine LFO at rest.
    fn default() -> (r: Self)
        ensures
            !r.enabled,
            r.wave_type == WaveType::Sin,
            r.frequency_mhz == 0,
    {
        LfoParams { enabled: false, wave_type: WaveType::Sin, frequency_mhz: 0 }
    }
}

/// Per-slot oscillator configuration of the sound generator.
#[derive(Debug, PartialEq, Eq, Structural, Copy, Clone)]
pub struct SoundGenOscParams {
    pub num: OscNumber,
    pub enabled: bool,
    pub wave_type: WaveType,
    /// Number of unison voices per note, between 1 and `MAX_UNISON`.
    pub unisons: i64,
    /// Unison detune amount as a fraction of the maximum detune, in
    /// thousandths (0 is no detune, 1000 is the full two semitones).
    pub unison_detune_permille: u64,
}

impl SoundGenOscParams {
    /// The parameter values every slot must keep.
    pub open spec fn well_formed(self) -> bool {
        &&& 1 <= self.unisons <= MAX_UNISON
        &&& self.unison_detune_permille <= 1000
    }

    /// The default parameter set: only the first slot enabled, each slot a
    /// two-voice sine at full detune.
    pub open spec fn default_for(num: OscNumber) -> SoundGenOscParams {
        SoundGenOscParams {
            num,
            enabled: num == OscNumber::Osc1,
            wave_type: WaveType::Sin,
            unisons: 2,
            unison_detune_permille: 1000,
        }
    }

    /// Builds the default configuration for all `NUM_OSCILLATORS` slots.
    pub fn create_default_array() -> (r: Vec<SoundGenOscParams>)
        ensures
            r@.len() == NUM_OSCILLATORS,
            r@[0] == Self::default_for(OscNumber::Osc1),
            r@[1] == Self::default_for(OscNumber::Osc2),
            r@[2] == Self::default_for(OscNumber::Osc3),
            forall|i: int| 0 <= i < r@.len() ==> (#[trigger] r@[i]).well_formed(),
    {
        let mut v: Vec<SoundGenOscParams> = Vec::new();
        v.push(
            SoundGenOscParams {
                num: OscNumber::Osc1,
                enabled: true,
                wave_type: WaveType::Sin,
                unisons: 2,
                unison_detune_permille: 1000,
            },
        );
        v.push(
            SoundGenOscParams {
                num: OscNumber::Osc2,
                enabled: false,
                wave_type: WaveType::Sin,
                unisons: 2,
                unison_detune_permille: 1000,
            },
        );
        v.push(
            SoundGenOscParams {
                num: OscNumber::Osc3,
                enabled: false,
                wave_type: WaveType::Sin,
                unisons: 2,
                unison_detune_permille: 1000,
            },
        );
        v
    }
}

} // verus!
