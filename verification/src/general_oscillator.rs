//! A self-contained voice: one oscillator paired with its own envelope and
//! trigger timestamps. Unlike the polyphonic pool, where many notes share
//! one envelope, each of these voices carries everything it needs, which
//! makes it a convenient building block for simple monophonic setups.

use vstd::prelude::*;

use crate::constants::TIME_MAX_MICROS;
use crate::envelope::EnvelopeADSR;
use crate::fixed::{amp_scaled, scale_amplitude, AMP_ONE, GAIN_FACTOR_LIMIT};
use crate::oscillator::{Oscillator, TICK_MODULUS};
use crate::pitch::FREQ_LIMIT_MHZ;
use crate::wavetype::WaveType;

verus! {

/// One oscillator with its own envelope and note state.
pub struct GeneralOscillator {
    pub note_oscillator: Oscillator,
    pub envelope: EnvelopeADSR,
    pub trigger_on_time: u64,
    pub trigger_off_time: u64,
    pub note_pressed: bool,
}

impl GeneralOscillator {
    /// The state every voice keeps.
    pub open spec fn well_formed(self) -> bool {
        &&& self.note_oscillator.well_formed()
        &&& self.envelope.well_formed()
        &&& self.trigger_on_time <= TIME_MAX_MICROS
        &&& self.trigger_off_time <= TIME_MAX_MICROS
    }

    /// The enveloped sample this voice yields at time `now` in its current
    /// state.
    pub open spec fn sample_at(self, now: int) -> int {
        amp_scaled(
            self.note_oscillator.sample_fx(0, 0),
            self.envelope.level(
                now,
                self.trigger_on_time as int,
                self.trigger_off_time as int,
                self.note_pressed,
            ),
        )
    }

    /// A fresh voice pressed at time `now`: a new oscillator at phase zero
    /// and the default envelope.
    pub fn new(frequency: u64, wave_type: WaveType, now: u64) -> (r: GeneralOscillator)
        requires
            0 < frequency < FREQ_LIMIT_MHZ,
            now <= TIME_MAX_MICROS,
        ensures
            r.well_formed(),
            r.note_oscillator.frequency == frequency,
            r.note_oscillator.wave_type == wave_type,
            r.note_oscillator.sample_index == 0,
            r.trigger_on_time == now,
            r.trigger_off_time == 0,
            r.note_pressed,
    {
        GeneralOscillator {
            note_oscillator: Oscillator::new(frequency, wave_type, 0),
            envelope: EnvelopeADSR::new(),
            trigger_on_time: now,
            trigger_off_time: 0,
            note_pressed: true,
        }
    }

    /// Changes the waveform shape without resetting the phase.
    pub fn set_wave_type(&mut self, wave_type: WaveType)
        requires
            old(self).well_formed(),
        ensures
            final(self).well_formed(),
            final(self).note_oscillator == (Oscillator {
                wave_type,
                ..old(self).note_oscillator
            }),
            final(self).envelope == old(self).envelope,
            final(self).trigger_on_time == old(self).trigger_on_time,
            final(self).trigger_off_time == old(self).trigger_off_time,
            final(self).note_pressed == old(self).note_pressed,
    {
        self.note_oscillator.set_wave_type(wave_type);
    }

    /// Stamps the voice released at `now`: its envelope enters the release
    /// phase from this moment.
    pub fn note_released(&mut self, now: u64)
        requires
            old(self).well_formed(),
            now <= TIME_MAX_MICROS,
        ensures
            final(self).well_formed(),
            *final(self) == (GeneralOscillator {
                trigger_off_time: now,
                note_pressed: false,
                ..*old(self)
            }),
    {
        self.trigger_off_time = now;
        self.note_pressed = false;
    }

    /// The voice's envelope level at time `now`.
    pub fn get_amplitude(&self, now: u64) -> (amp: u64)
        requires
            self.well_formed(),
            now <= TIME_MAX_MICROS,
        ensures
            amp == self.envelope.level(
                now as int,
                self.trigger_on_time as int,
                self.trigger_off_time as int,
                self.note_pressed,
            ),
            amp <= AMP_ONE,
    {
        self.envelope.get_amplitude(
            now,
            self.trigger_on_time,
            self.trigger_off_time,
            self.note_pressed,
        )
    }

    /// Computes `sample_at` for the current state and advances the
    /// oscillator by one tick.
    pub fn get_sample(&mut self, now: u64) -> (sample: i64)
        requires
            old(self).well_formed(),
            now <= TIME_MAX_MICROS,
        ensures
            final(self).well_formed(),
            sample == old(self).sample_at(now as int),
            -(GAIN_FACTOR_LIMIT as i64) <= sample <= GAIN_FACTOR_LIMIT as i64,
            final(self).note_oscillator == old(self).note_oscillator.advanced(),
            final(self).envelope == old(self).envelope,
            final(self).trigger_on_time == old(self).trigger_on_time,
            final(self).trigger_off_time == old(self).trigger_off_time,
            final(self).note_pressed == old(self).note_pressed,
    {
        let amp = self.get_amplitude(now);
        let value = self.note_oscillator.get_sample(0, 0);
        proof {
            assert((value as int) * (amp as int) <= (GAIN_FACTOR_LIMIT as int) * (AMP_ONE as int)
                && (-(value as int)) * (amp as int) <= (GAIN_FACTOR_LIMIT as int) * (AMP_ONE
                as int)) by (nonlinear_arith)
                requires
                    -(GAIN_FACTOR_LIMIT as int) <= (value as int) <= (GAIN_FACTOR_LIMIT as int),
                    0 <= (amp as int) <= (AMP_ONE as int),
            ;
            crate::fixed::lemma_amp_scaled_bound(
                value as int,
                amp as int,
                GAIN_FACTOR_LIMIT as int,
                AMP_ONE as int,
            );
            vstd::arithmetic::div_mod::lemma_div_multiples_vanish(
                GAIN_FACTOR_LIMIT as int,
                AMP_ONE as int,
            );
        }
        scale_amplitude(value, amp)
    }

    /// Sets this voice's attack duration, in microseconds (saturating).
    pub fn set_attack_time(&mut self, attack: u64)
        requires
            old(self).well_formed(),
        ensures
            final(self).well_formed(),
            final(self).envelope.attack_time_spec() == if attack <= TIME_MAX_MICROS {
                attack as int
            } else {
                TIME_MAX_MICROS as int
            },
            final(self).envelope.decay_time_spec() == old(self).envelope.decay_time_spec(),
            final(self).envelope.release_time_spec() == old(self).envelope.release_time_spec(),
            final(self).note_oscillator == old(self).note_oscillator,
            final(self).trigger_on_time == old(self).trigger_on_time,
            final(self).trigger_off_time == old(self).trigger_off_time,
            final(self).note_pressed == old(self).note_pressed,
    {
        self.envelope.set_attack_time(attack);
    }

    /// Sets this voice's decay duration, in microseconds (saturating).
    pub fn set_decay_time(&mut self, decay: u64)
        requires
            old(self).well_formed(),
        ensures
            final(self).well_formed(),
            final(self).envelope.decay_time_spec() == if decay <= TIME_MAX_MICROS {
                decay as int
            } else {
                TIME_MAX_MICROS as int
            },
            final(self).envelope.attack_time_spec() == old(self).envelope.attack_time_spec(),
            final(self).envelope.release_time_spec() == old(self).envelope.release_time_spec(),
            final(self).note_oscillator == old(self).note_oscillator,
            final(self).trigger_on_time == old(self).trigger_on_time,
            final(self).trigger_off_time == old(self).trigger_off_time,
            final(self).note_pressed == old(self).note_pressed,
    {
        self.envelope.set_decay_time(decay);
    }

    /// Sets this voice's release duration, in microseconds (saturating).
    pub fn set_release_time(&mut self, release: u64)
        requires
            old(self).well_formed(),
        ensures
            final(self).well_formed(),
            final(self).envelope.release_time_spec() == if release <= TIME_MAX_MICROS {
                release as int
            } else {
                TIME_MAX_MICROS as int
            },
            final(self).envelope.attack_time_spec() == old(self).envelope.attack_time_spec(),
            final(self).envelope.decay_time_spec() == old(self).envelope.decay_time_spec(),
            final(self).note_oscillator == old(self).note_oscillator,
            final(self).trigger_on_time == old(self).trigger_on_time,
            final(self).trigger_off_time == old(self).trigger_off_time,
            final(self).note_pressed == old(self).note_pressed,
    {
        self.envelope.set_release_time(release);
    }
}

} // verus!
