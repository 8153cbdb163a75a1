//! The closed-form oscillator: one waveform voice that yields one amplitude
//! sample per tick and advances its sample index.
//!
//! The oscillator's phase is derived from its sample index: at tick `n` a
//! voice of frequency `f` milli-hertz has completed `f * n / (1000 * 44100)`
//! cycles, and only the fractional cycle matters. The sample index therefore
//! wraps at `TICK_MODULUS = 1000 * SAMPLE_RATE` ticks, which leaves every
//! phase unchanged. An optional low-frequency oscillator shifts the phase by
//! `lfo_amplitude * f * sin(lfo phase) / (2 pi)` cycles before the waveform
//! is evaluated.

use vstd::arithmetic::div_mod::{lemma_div_is_ordered, lemma_div_multiples_vanish};
use vstd::prelude::*;

use crate::fixed::{
    amp_of_db, amp_scaled, gain_to_amplitude, lemma_amp_of_db_bounds, lemma_amp_scaled_bound,
    lemma_wave_fx_bounds, scale_amplitude, sine_fx, sine_value, wave_fx, wave_value, AMP_ONE,
    GAIN_DB_MAX, GAIN_DB_MIN, GAIN_FACTOR_LIMIT, PHASE_ONE,
};
use crate::pitch::FREQ_LIMIT_MHZ;
use crate::wavetype::WaveType;

verus! {

/// The sample index wraps here: `1000 * SAMPLE_RATE` ticks, after which
/// every frequency in milli-hertz has completed a whole number of cycles.
pub const TICK_MODULUS: u64 = 44_100_000;

/// `AMP_ONE / (2 * pi)`, rounded to the nearest integer.
pub const INV_TWO_PI: u64 = 159155;

/// The phase, in `PHASE_ONE` units, of a voice of `freq_mhz` milli-hertz at
/// sample index `index`: the fractional part of the cycles completed so far.
pub open spec fn phase_of(freq_mhz: int, index: int) -> int {
    (((freq_mhz * index) % (TICK_MODULUS as int)) * (PHASE_ONE as int)) / (TICK_MODULUS as int)
}

/// The magnitude of the low-frequency modulation's phase shift, computed in
/// fixed-point stages from the magnitude `s_mag` of the LFO's sine value:
/// `lfo_amp * freq * s_mag / (2 pi)` cycles, expressed in `PHASE_ONE` units
/// and wrapped to one cycle.
pub open spec fn lfo_shift_mag(freq_mhz: int, lfo_amp: int, s_mag: int) -> int {
    let t1 = (lfo_amp * s_mag) / (AMP_ONE as int);
    let t2 = (t1 * freq_mhz) / 1000;
    let t3 = (t2 * (INV_TWO_PI as int)) / (AMP_ONE as int);
    ((t3 * (PHASE_ONE as int)) / (AMP_ONE as int)) % (PHASE_ONE as int)
}

/// The phase a voice evaluates its waveform at: the unmodulated phase of the
/// voice, shifted by the low-frequency modulation in the direction of the
/// LFO's sine sign.
pub open spec fn modulated_phase(freq_mhz: int, lfo_freq: int, lfo_amp: int, index: int) -> int {
    let base = phase_of(freq_mhz, index);
    let s = sine_fx(phase_of(lfo_freq, index));
    if s >= 0 {
        (base + lfo_shift_mag(freq_mhz, lfo_amp, s)) % (PHASE_ONE as int)
    } else {
        (base + (PHASE_ONE as int) - lfo_shift_mag(freq_mhz, lfo_amp, -s)) % (PHASE_ONE as int)
    }
}

/// One waveform voice: a frequency, a waveform shape, a gain, and a
/// monotonically advancing (wrapped) sample index.
pub struct Oscillator {
    pub gain_db: i64,
    pub amplitude: u64,
    pub frequency: u64,
    pub wave_type: WaveType,
    pub sample_index: u64,
}

impl Oscillator {
    /// The state every oscillator keeps: a nonzero in-range frequency, a
    /// wrapped sample index, and an amplitude factor that is exactly the
    /// fixed-point form of its decibel gain.
    pub open spec fn well_formed(self) -> bool {
        &&& 0 < self.frequency < FREQ_LIMIT_MHZ
        &&& self.sample_index < TICK_MODULUS
        &&& GAIN_DB_MIN <= self.gain_db <= GAIN_DB_MAX
        &&& self.amplitude == amp_of_db(self.gain_db as int)
        &&& self.amplitude <= GAIN_FACTOR_LIMIT
    }

    /// The sample this oscillator yields at its current state: the waveform
    /// value at the modulated phase, scaled by the amplitude factor.
    pub open spec fn sample_fx(self, lfo_freq: int, lfo_amp: int) -> int {
        amp_scaled(
            wave_fx(
                self.wave_type,
                modulated_phase(
                    self.frequency as int,
                    lfo_freq,
                    lfo_amp,
                    self.sample_index as int,
                ),
            ),
            self.amplitude as int,
        )
    }

    /// The same voice one tick later: only the sample index has advanced,
    /// wrapping at `TICK_MODULUS`.
    pub open spec fn advanced(self) -> Oscillator {
        Oscillator {
            sample_index: ((self.sample_index + 1) % (TICK_MODULUS as int)) as u64,
            ..self
        }
    }

    /// A voice's sample never exceeds its amplitude budget.
    pub proof fn lemma_sample_fx_bound(self, lfo_freq: int, lfo_amp: int)
        requires
            self.well_formed(),
        ensures
            -(GAIN_FACTOR_LIMIT as int) <= self.sample_fx(lfo_freq, lfo_amp) <= GAIN_FACTOR_LIMIT
                as int,
    {
        let phase = modulated_phase(
            self.frequency as int,
            lfo_freq,
            lfo_amp,
            self.sample_index as int,
        );
        lemma_wave_fx_bounds(self.wave_type, phase);
        lemma_amp_scaled_bound(
            wave_fx(self.wave_type, phase),
            self.amplitude as int,
            AMP_ONE as int,
            GAIN_FACTOR_LIMIT as int,
        );
        lemma_div_multiples_vanish(GAIN_FACTOR_LIMIT as int, AMP_ONE as int);
    }

    /// A fresh voice at gain 0 dB (amplitude factor one).
    pub fn new(frequency: u64, wave_type: WaveType, starting_sample_index: u64) -> (r: Oscillator)
        requires
            0 < frequency < FREQ_LIMIT_MHZ,
            starting_sample_index < TICK_MODULUS,
        ensures
            r.well_formed(),
            r.frequency == frequency,
            r.wave_type == wave_type,
            r.sample_index == starting_sample_index,
            r.gain_db == 0,
            r.amplitude == amp_of_db(0),
    {
        let amplitude = gain_to_amplitude(0);
        Oscillator { gain_db: 0, amplitude, frequency, wave_type, sample_index: starting_sample_index }
    }

    /// The current (wrapped) sample index.
    pub fn get_sample_index(&self) -> (i: u64)
        ensures
            i == self.sample_index,
    {
        self.sample_index
    }

    /// The current frequency in milli-hertz.
    pub fn get_frequency(&self) -> (f: u64)
        ensures
            f == self.frequency,
    {
        self.frequency
    }

    /// The current amplitude factor, in `AMP_ONE` units.
    pub fn get_amplitude(&self) -> (a: u64)
        ensures
            a == self.amplitude,
    {
        self.amplitude
    }

    /// Changes the frequency without resetting the phase, so a sounding
    /// voice does not click.
    pub fn set_frequency(&mut self, frequency: u64)
        requires
            old(self).well_formed(),
            0 < frequency < FREQ_LIMIT_MHZ,
        ensures
            final(self).well_formed(),
            *final(self) == (Oscillator { frequency, ..*old(self) }),
    {
        self.frequency = frequency;
    }

    /// Changes the waveform shape without resetting the phase.
    pub fn set_wave_type(&mut self, wave_type: WaveType)
        requires
            old(self).well_formed(),
        ensures
            final(self).well_formed(),
            *final(self) == (Oscillator { wave_type, ..*old(self) }),
    {
        self.wave_type = wave_type;
    }

    /// Sets the gain, in whole decibels, saturating into
    /// `[GAIN_DB_MIN, GAIN_DB_MAX]`, and recomputes the amplitude factor.
    pub fn set_gain(&mut self, gain_db: i64)
        requires
            old(self).well_formed(),
        ensures
            final(self).well_formed(),
            final(self).gain_db == if gain_db < GAIN_DB_MIN {
                GAIN_DB_MIN as int
            } else if gain_db > GAIN_DB_MAX {
                GAIN_DB_MAX as int
            } else {
                gain_db as int
            },
            final(self).amplitude == amp_of_db(final(self).gain_db as int),
            final(self).frequency == old(self).frequency,
            final(self).wave_type == old(self).wave_type,
            final(self).sample_index == old(self).sample_index,
    {
        let clamped: i64 = if gain_db < GAIN_DB_MIN {
            GAIN_DB_MIN
        } else if gain_db > GAIN_DB_MAX {
            GAIN_DB_MAX
        } else {
            gain_db
        };
        self.gain_db = clamped;
        self.amplitude = gain_to_amplitude(clamped);
    }

    /// Computes `sample_fx` at the current state and advances the sample
    /// index by one tick (wrapping at `TICK_MODULUS`). The LFO inputs are
    /// the modulator's frequency in milli-hertz and its amplitude factor; a
    /// zero amplitude leaves the phase unmodulated.
    pub fn get_sample(&mut self, lfo_freq: u64, lfo_amplitude: u64) -> (sample: i64)
        requires
            old(self).well_formed(),
            lfo_freq < FREQ_LIMIT_MHZ,
            lfo_amplitude <= GAIN_FACTOR_LIMIT,
        ensures
            final(self).well_formed(),
            sample == old(self).sample_fx(lfo_freq as int, lfo_amplitude as int),
            -(GAIN_FACTOR_LIMIT as i64) <= sample <= GAIN_FACTOR_LIMIT as i64,
            final(self).sample_index == (old(self).sample_index + 1) % (TICK_MODULUS as int),
            final(self).frequency == old(self).frequency,
            final(self).wave_type == old(self).wave_type,
            final(self).amplitude == old(self).amplitude,
            final(self).gain_db == old(self).gain_db,
    {
        let base = phase_index(self.frequency, self.sample_index);
        let lfo_phase = phase_index(lfo_freq, self.sample_index);
        let s = sine_value(lfo_phase);
        let s_mag: u64 = if s >= 0 {
            s as u64
        } else {
            (-s) as u64
        };
        let shift = shift_magnitude(self.frequency, lfo_amplitude, s_mag);
        let phase: u64 = if s >= 0 {
            (base + shift) % PHASE_ONE
        } else {
            (base + PHASE_ONE - shift) % PHASE_ONE
        };
        let value = wave_value(self.wave_type, phase);
        proof {
            assert((value as int) * (self.amplitude as int) <= (AMP_ONE as int) * (
            GAIN_FACTOR_LIMIT as int) && (-(value as int)) * (self.amplitude as int) <= (AMP_ONE
                as int) * (GAIN_FACTOR_LIMIT as int)) by (nonlinear_arith)
                requires
                    -(AMP_ONE as int) <= (value as int) <= (AMP_ONE as int),
                    0 <= (self.amplitude as int) <= (GAIN_FACTOR_LIMIT as int),
            ;
            lemma_amp_scaled_bound(
                value as int,
                self.amplitude as int,
                AMP_ONE as int,
                GAIN_FACTOR_LIMIT as int,
            );
            lemma_div_multiples_vanish(GAIN_FACTOR_LIMIT as int, AMP_ONE as int);
        }
        let sample = scale_amplitude(value, self.amplitude);
        self.sample_index = (self.sample_index + 1) % TICK_MODULUS;
        sample
    }
}

/// Computes `phase_of` exactly: the wrapped phase of a voice of `freq`
/// milli-hertz at sample index `index`.
fn phase_index(freq: u64, index: u64) -> (p: u64)
    requires
        freq < FREQ_LIMIT_MHZ,
        index < TICK_MODULUS,
    ensures
        p == phase_of(freq as int, index as int),
        p < PHASE_ONE,
{
    proof {
        assert((freq as int) * (index as int) < (FREQ_LIMIT_MHZ as int) * (TICK_MODULUS as int))
            by (nonlinear_arith)
            requires
                0 <= (freq as int) < (FREQ_LIMIT_MHZ as int),
                0 <= (index as int) < (TICK_MODULUS as int),
        ;
    }
    let wrapped = (freq * index) % TICK_MODULUS;
    let p = ((wrapped as u128 * PHASE_ONE as u128) / TICK_MODULUS as u128) as u64;
    proof {
        lemma_div_is_ordered(
            (wrapped as int) * (PHASE_ONE as int),
            (TICK_MODULUS as int - 1) * (PHASE_ONE as int),
            TICK_MODULUS as int,
        );
    }
    p
}

/// Computes `lfo_shift_mag` exactly: the magnitude of the modulation's phase
/// shift, already wrapped to one cycle.
fn shift_magnitude(freq: u64, lfo_amp: u64, s_mag: u64) -> (shift: u64)
    requires
        freq < FREQ_LIMIT_MHZ,
        lfo_amp <= GAIN_FACTOR_LIMIT,
        s_mag <= AMP_ONE,
    ensures
        shift == lfo_shift_mag(freq as int, lfo_amp as int, s_mag as int),
        shift < PHASE_ONE,
{
    proof {
        assert((lfo_amp as int) * (s_mag as int) <= (GAIN_FACTOR_LIMIT as int) * (AMP_ONE as int))
            by (nonlinear_arith)
            requires
                0 <= (lfo_amp as int) <= (GAIN_FACTOR_LIMIT as int),
                0 <= (s_mag as int) <= (AMP_ONE as int),
        ;
    }
    let t1 = ((lfo_amp as u128 * s_mag as u128) / (AMP_ONE as u128)) as u64;
    proof {
        lemma_div_is_ordered(
            (lfo_amp as int) * (s_mag as int),
            (GAIN_FACTOR_LIMIT as int) * (AMP_ONE as int),
            AMP_ONE as int,
        );
        lemma_div_multiples_vanish(GAIN_FACTOR_LIMIT as int, AMP_ONE as int);
        assert((t1 as int) * (freq as int) <= (GAIN_FACTOR_LIMIT as int) * (FREQ_LIMIT_MHZ as int))
            by (nonlinear_arith)
            requires
                0 <= (t1 as int) <= (GAIN_FACTOR_LIMIT as int),
                0 <= (freq as int) <= (FREQ_LIMIT_MHZ as int),
        ;
    }
    let t2 = ((t1 as u128 * freq as u128) / 1000) as u64;
    let t3 = ((t2 as u128 * INV_TWO_PI as u128) / (AMP_ONE as u128)) as u64;
    let shift_total = (t3 as u128 * PHASE_ONE as u128) / (AMP_ONE as u128);
    (shift_total % (PHASE_ONE as u128)) as u64
}

} // verus!
