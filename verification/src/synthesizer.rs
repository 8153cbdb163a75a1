//! The synthesizer: the voice pool together with the shared envelope, the
//! shared low-frequency oscillator and the engine's own clock, driven by
//! control events.
//!
//! The engine is pull-based: each call for a sample advances the clock by
//! one tick at `SAMPLE_RATE`. Control events arrive from outside; the
//! caller is expected to hand the engine at most one event per tick, which
//! keeps per-sample control work constant. Every event is applied totally:
//! out-of-range values are clamped or ignored rather than failing, so the
//! audio path can never panic because of what the control side sent.

use vstd::arithmetic::div_mod::lemma_div_is_ordered;
use vstd::prelude::*;

use crate::constants::{
    MAX_UNISON, NUM_CHANNELS, NUM_OSCILLATORS, SAMPLE_RATE, SoundGenOscParams, TIME_MAX_MICROS,
};
use crate::envelope::EnvelopeADSR;
use crate::fixed::amp_of_db;
use crate::note_generator::{NOTE_MAX, NOTE_MIN};
use crate::oscillator::Oscillator;
use crate::sound_generator::{
    advanced_note, fresh_note, held_mix, lfo_amplitude_of, lfo_frequency_of, note_count,
    note_params_of, released_mix, released_survivors, slot_updated, SoundGenerator,
    POOL_SAMPLE_LIMIT,
};
use crate::wavetype::WaveType;

verus! {

/// The clock saturates here: about twelve days of ticks, beyond which the
/// engine's time stands still instead of overflowing its time bound.
pub const TICK_LIMIT: u64 = 48_000_000_000;

/// The engine's time, in microseconds, after `tick` samples at
/// `SAMPLE_RATE`.
pub open spec fn time_of_tick(tick: int) -> int {
    (tick * 1_000_000) / (SAMPLE_RATE as int)
}

/// Which envelope duration a control event changes.
#[derive(Debug, PartialEq, Eq, Structural, Copy, Clone)]
pub enum EnvelopeParam {
    AttackTime,
    DecayTime,
    ReleaseTime,
}

/// A control event, delivered from the control side to the engine:
/// press or release a note, reconfigure one oscillator slot, or change an
/// envelope duration (in microseconds).
pub enum SynthEvent {
    NotePress(i64),
    NoteRelease(i64),
    ChangeSoundGenOscParams(SoundGenOscParams),
    ChangeEnvelope(EnvelopeParam, u64),
}

/// Slot parameters forced into their valid ranges: at least one unison
/// voice, at most `MAX_UNISON`, and a detune fraction of at most one.
pub open spec fn sanitized_params(p: SoundGenOscParams) -> SoundGenOscParams {
    SoundGenOscParams {
        unisons: if p.unisons < 1 {
            1
        } else if p.unisons > MAX_UNISON {
            MAX_UNISON
        } else {
            p.unisons
        },
        unison_detune_permille: if p.unison_detune_permille > 1000 {
            1000
        } else {
            p.unison_detune_permille
        },
        ..p
    }
}

/// The synthesizer: voice pool, shared envelope, shared low-frequency
/// oscillator, and the sample clock.
pub struct Synthesizer {
    pub sound_generator: SoundGenerator,
    pub envelope: EnvelopeADSR,
    pub lfo: Oscillator,
    pub tick: u64,
}

impl Synthesizer {
    /// The state the synthesizer keeps.
    pub open spec fn well_formed(self) -> bool {
        &&& self.sound_generator.well_formed()
        &&& self.envelope.well_formed()
        &&& self.lfo.well_formed()
        &&& self.tick <= TICK_LIMIT
    }

    /// A fresh engine: an empty pool with the default configuration, the
    /// default envelope, a 2 Hz sine LFO at -50 dB, and the clock at zero.
    pub fn new() -> (r: Synthesizer)
        ensures
            r.well_formed(),
            r.sound_generator.held_notes@.len() == 0,
            r.sound_generator.released_notes@.len() == 0,
            r.envelope.attack_time_spec() == 1_000_000,
            r.envelope.decay_time_spec() == 1_000_000,
            r.envelope.release_time_spec() == 2_000_000,
            r.envelope.sustain_amplitude_spec() == 100_000,
            r.envelope.start_amplitude_spec() == 110_000,
            r.lfo.frequency == 2000,
            r.lfo.wave_type == WaveType::Sin,
            r.lfo.sample_index == 0,
            r.lfo.gain_db == -50,
            r.lfo.amplitude == amp_of_db(-50),
            r.tick == 0,
    {
        let mut lfo = Oscillator::new(2000, WaveType::Sin, 0);
        lfo.set_gain(-50);
        Synthesizer {
            sound_generator: SoundGenerator::new(),
            envelope: EnvelopeADSR::new(),
            lfo,
            tick: 0,
        }
    }

    /// The engine's current time in microseconds.
    pub fn current_time_micros(&self) -> (t: u64)
        requires
            self.well_formed(),
        ensures
            t == time_of_tick(self.tick as int),
            t <= TIME_MAX_MICROS,
    {
        proof {
            lemma_div_is_ordered(
                (self.tick as int) * 1_000_000,
                (TICK_LIMIT as int) * 1_000_000,
                SAMPLE_RATE as int,
            );
        }
        (((self.tick as u128) * 1_000_000) / (SAMPLE_RATE as u128)) as u64
    }

    /// Applies one control event at the engine's current time. Every event
    /// is total: an unknown note number is ignored, out-of-range slot
    /// parameters are clamped, and envelope durations saturate at the time
    /// bound.
    pub fn handle_event(&mut self, event: SynthEvent)
        requires
            old(self).well_formed(),
        ensures
            final(self).well_formed(),
            final(self).lfo == old(self).lfo,
            final(self).tick == old(self).tick,
            match event {
                SynthEvent::NotePress(note) => {
                    let held_new = final(self).sound_generator.held_notes@;
                    let held_old = old(self).sound_generator.held_notes@;
                    &&& final(self).envelope == old(self).envelope
                    &&& final(self).sound_generator.released_notes == old(
                        self,
                    ).sound_generator.released_notes
                    &&& final(self).sound_generator.generators == old(
                        self,
                    ).sound_generator.generators
                    &&& (NOTE_MIN <= note <= NOTE_MAX ==> note_count(held_new, note as int) == 1
                        && exists|i: int|
                        0 <= i < held_new.len() && fresh_note(
                            #[trigger] held_new[i],
                            note as int,
                            old(self).sound_generator.generators@,
                            time_of_tick(old(self).tick as int),
                        ))
                    &&& (NOTE_MIN <= note <= NOTE_MAX ==> (forall|i: int|
                        0 <= i < held_old.len() && held_old[i].note != note
                            ==> #[trigger] held_new[i] == held_old[i]))
                    &&& (NOTE_MIN <= note <= NOTE_MAX ==> (if exists|i: int|
                        0 <= i < held_old.len() && (#[trigger] held_old[i]).note == note {
                        held_new.len() == held_old.len()
                    } else {
                        held_new.len() == held_old.len() + 1
                    }))
                    &&& (!(NOTE_MIN <= note <= NOTE_MAX) ==> final(self).sound_generator.held_notes
                        == old(self).sound_generator.held_notes)
                },
                SynthEvent::NoteRelease(note) => {
                    &&& final(self).envelope == old(self).envelope
                    &&& final(self).sound_generator.generators == old(
                        self,
                    ).sound_generator.generators
                    &&& forall|i: int|
                        0 <= i < final(self).sound_generator.held_notes@.len() ==> (
                        #[trigger] final(self).sound_generator.held_notes@[i]).note != note
                },
                SynthEvent::ChangeSoundGenOscParams(p) => {
                    &&& final(self).envelope == old(self).envelope
                    &&& final(self).sound_generator.generators@ == old(
                        self,
                    ).sound_generator.generators@.update(
                        p.num.index_spec(),
                        sanitized_params(p),
                    )
                    &&& forall|i: int|
                        0 <= i < old(self).sound_generator.held_notes@.len() ==> slot_updated(
                            #[trigger] final(self).sound_generator.held_notes@[i],
                            old(self).sound_generator.held_notes@[i],
                            p.num.index_spec(),
                            note_params_of(sanitized_params(p)),
                        )
                    &&& forall|i: int|
                        0 <= i < old(self).sound_generator.released_notes@.len() ==> slot_updated(
                            #[trigger] final(self).sound_generator.released_notes@[i],
                            old(self).sound_generator.released_notes@[i],
                            p.num.index_spec(),
                            note_params_of(sanitized_params(p)),
                        )
                },
                SynthEvent::ChangeEnvelope(param, value) => {
                    let e_new = final(self).envelope;
                    let e_old = old(self).envelope;
                    let clamped: int = if value <= TIME_MAX_MICROS {
                        value as int
                    } else {
                        TIME_MAX_MICROS as int
                    };
                    &&& final(self).sound_generator == old(self).sound_generator
                    &&& match param {
                        EnvelopeParam::AttackTime => e_new.attack_time_spec() == clamped
                            && e_new.decay_time_spec() == e_old.decay_time_spec()
                            && e_new.release_time_spec() == e_old.release_time_spec(),
                        EnvelopeParam::DecayTime => e_new.decay_time_spec() == clamped
                            && e_new.attack_time_spec() == e_old.attack_time_spec()
                            && e_new.release_time_spec() == e_old.release_time_spec(),
                        EnvelopeParam::ReleaseTime => e_new.release_time_spec() == clamped
                            && e_new.attack_time_spec() == e_old.attack_time_spec()
                            && e_new.decay_time_spec() == e_old.decay_time_spec(),
                    }
                    &&& e_new.sustain_amplitude_spec() == e_old.sustain_amplitude_spec()
                    &&& e_new.start_amplitude_spec() == e_old.start_amplitude_spec()
                },
            },
    {
        let now = self.current_time_micros();
        match event {
            SynthEvent::NotePress(note) => {
                self.sound_generator.note_pressed(note, now);
            },
            SynthEvent::NoteRelease(note) => {
                self.sound_generator.note_released(note, now);
            },
            SynthEvent::ChangeSoundGenOscParams(osc_params) => {
                let unisons: i64 = if osc_params.unisons < 1 {
                    1
                } else if osc_params.unisons > MAX_UNISON {
                    MAX_UNISON
                } else {
                    osc_params.unisons
                };
                let unison_detune_permille: u64 = if osc_params.unison_detune_permille > 1000 {
                    1000
                } else {
                    osc_params.unison_detune_permille
                };
                let clamped = SoundGenOscParams {
                    num: osc_params.num,
                    enabled: osc_params.enabled,
                    wave_type: osc_params.wave_type,
                    unisons,
                    unison_detune_permille,
                };
                self.sound_generator.update_oscillator_params(clamped);
            },
            SynthEvent::ChangeEnvelope(param, value) => {
                match param {
                    EnvelopeParam::AttackTime => self.set_attack_time(value),
                    EnvelopeParam::DecayTime => self.set_decay_time(value),
                    EnvelopeParam::ReleaseTime => self.set_release_time(value),
                }
            },
        }
    }

    /// Sets the envelope's attack duration, in microseconds (saturating).
    fn set_attack_time(&mut self, attack: u64)
        requires
            old(self).well_formed(),
        ensures
            final(self).well_formed(),
            final(self).sound_generator == old(self).sound_generator,
            final(self).lfo == old(self).lfo,
            final(self).tick == old(self).tick,
            final(self).envelope.attack_time_spec() == if attack <= TIME_MAX_MICROS {
                attack as int
            } else {
                TIME_MAX_MICROS as int
            },
            final(self).envelope.decay_time_spec() == old(self).envelope.decay_time_spec(),
            final(self).envelope.release_time_spec() == old(self).envelope.release_time_spec(),
            final(self).envelope.sustain_amplitude_spec() == old(
                self,
            ).envelope.sustain_amplitude_spec(),
            final(self).envelope.start_amplitude_spec() == old(
                self,
            ).envelope.start_amplitude_spec(),
    {
        self.envelope.set_attack_time(attack);
    }

    /// Sets the envelope's decay duration, in microseconds (saturating).
    fn set_decay_time(&mut self, decay: u64)
        requires
            old(self).well_formed(),
        ensures
            final(self).well_formed(),
            final(self).sound_generator == old(self).sound_generator,
            final(self).lfo == old(self).lfo,
            final(self).tick == old(self).tick,
            final(self).envelope.decay_time_spec() == if decay <= TIME_MAX_MICROS {
                decay as int
            } else {
                TIME_MAX_MICROS as int
            },
            final(self).envelope.attack_time_spec() == old(self).envelope.attack_time_spec(),
            final(self).envelope.release_time_spec() == old(self).envelope.release_time_spec(),
            final(self).envelope.sustain_amplitude_spec() == old(
                self,
            ).envelope.sustain_amplitude_spec(),
            final(self).envelope.start_amplitude_spec() == old(
                self,
            ).envelope.start_amplitude_spec(),
    {
        self.envelope.set_decay_time(decay);
    }

    /// Sets the envelope's release duration, in microseconds (saturating).
    fn set_release_time(&mut self, release: u64)
        requires
            old(self).well_formed(),
        ensures
            final(self).well_formed(),
            final(self).sound_generator == old(self).sound_generator,
            final(self).lfo == old(self).lfo,
            final(self).tick == old(self).tick,
            final(self).envelope.release_time_spec() == if release <= TIME_MAX_MICROS {
                release as int
            } else {
                TIME_MAX_MICROS as int
            },
            final(self).envelope.attack_time_spec() == old(self).envelope.attack_time_spec(),
            final(self).envelope.decay_time_spec() == old(self).envelope.decay_time_spec(),
            final(self).envelope.sustain_amplitude_spec() == old(
                self,
            ).envelope.sustain_amplitude_spec(),
            final(self).envelope.start_amplitude_spec() == old(
                self,
            ).envelope.start_amplitude_spec(),
    {
        self.envelope.set_release_time(release);
    }

    /// Produces the next audio sample: mixes every held note and every
    /// still audible releasing note at the engine's current time, retires
    /// releasing notes whose envelope has reached zero, and advances the
    /// clock by one tick (the clock saturates at `TICK_LIMIT`). A freshly
    /// constructed engine, with no events applied, yields exactly zero.
    pub fn get_synth_sample(&mut self) -> (sample: i64)
        requires
            old(self).well_formed(),
        ensures
            final(self).well_formed(),
            final(self).envelope == old(self).envelope,
            final(self).lfo == old(self).lfo,
            final(self).sound_generator.generators == old(self).sound_generator.generators,
            final(self).tick == if old(self).tick < TICK_LIMIT {
                old(self).tick + 1
            } else {
                old(self).tick as int
            },
            sample == held_mix(
                old(self).sound_generator.held_notes@,
                old(self).envelope,
                old(self).lfo.frequency as int,
                old(self).lfo.amplitude as int,
                time_of_tick(old(self).tick as int),
            ) + released_mix(
                old(self).sound_generator.released_notes@,
                old(self).envelope,
                old(self).lfo.frequency as int,
                old(self).lfo.amplitude as int,
                time_of_tick(old(self).tick as int),
            ),
            -POOL_SAMPLE_LIMIT <= sample <= POOL_SAMPLE_LIMIT,
            old(self).sound_generator.held_notes@.len() == 0 && old(
                self,
            ).sound_generator.released_notes@.len() == 0 ==> sample == 0,
            final(self).sound_generator.held_notes@.len() == old(
                self,
            ).sound_generator.held_notes@.len(),
            forall|i: int|
                0 <= i < old(self).sound_generator.held_notes@.len() ==> advanced_note(
                    #[trigger] final(self).sound_generator.held_notes@[i],
                    old(self).sound_generator.held_notes@[i],
                ),
            final(self).sound_generator.released_notes@.len() == released_survivors(
                old(self).sound_generator.released_notes@,
                old(self).envelope,
                time_of_tick(old(self).tick as int),
            ).len(),
            forall|k: int|
                0 <= k < final(self).sound_generator.released_notes@.len() ==> advanced_note(
                    #[trigger] final(self).sound_generator.released_notes@[k],
                    released_survivors(
                        old(self).sound_generator.released_notes@,
                        old(self).envelope,
                        time_of_tick(old(self).tick as int),
                    )[k],
                ),
    {
        let now = self.current_time_micros();
        let lfo_freq = self.lfo.get_frequency();
        let lfo_amplitude = self.lfo.get_amplitude();
        proof {
            assert(lfo_frequency_of(Some(&old(self).lfo)) == old(self).lfo.frequency as int);
        }
        let sample = self.sound_generator.get_sample(&self.envelope, Some(&self.lfo), now);
        if self.tick < TICK_LIMIT {
            self.tick = self.tick + 1;
        }
        sample
    }

    /// The number of interleaved channels in the output stream.
    pub fn channels(&self) -> (c: u16)
        ensures
            c == NUM_CHANNELS,
    {
        NUM_CHANNELS
    }

    /// The number of samples the output stream expects per second.
    pub fn sample_rate(&self) -> (r: u32)
        ensures
            r as int == SAMPLE_RATE as int,
    {
        44100
    }
}

} // verus!
