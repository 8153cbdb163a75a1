//! The attack-decay-sustain-release amplitude envelope.
//!
//! The envelope is a pure function of a query time, a note's trigger
//! timestamps and its pressed flag; it holds no state of its own, so one
//! envelope value can safely be shared by every sounding note.
//!
//! Decay time is measured from the moment of note-on, not from the end of
//! the attack: the decay branch covers lifetimes in
//! `(attack_time, decay_time]`. Any level at or below `AMP_EPSILON` is
//! reported as exactly zero, which is the signal the voice pool uses to
//! retire a released voice.

use vstd::arithmetic::div_mod::{
    lemma_div_is_ordered, lemma_div_multiples_vanish, lemma_div_pos_is_pos,
};
use vstd::prelude::*;

use crate::constants::TIME_MAX_MICROS;
use crate::fixed::{AMP_EPSILON, AMP_ONE};

verus! {

/// Near-silence clamp: levels at or below `AMP_EPSILON` become exactly zero.
pub open spec fn amp_clamped(raw: int) -> int {
    if raw <= AMP_EPSILON as int {
        0
    } else {
        raw
    }
}

/// Attack-decay-sustain-release envelope parameters. Times are microseconds,
/// amplitudes are in `AMP_ONE` units.
pub struct EnvelopeADSR {
    pub attack_time: u64,
    pub decay_time: u64,
    pub release_time: u64,
    pub sustain_amplitude: u64,
    pub start_amplitude: u64,
}

impl EnvelopeADSR {
    /// The parameter ranges every envelope keeps: times bounded by
    /// `TIME_MAX_MICROS` and amplitudes ordered `sustain <= start <= 1.0`.
    pub open spec fn well_formed(self) -> bool {
        &&& self.attack_time <= TIME_MAX_MICROS
        &&& self.decay_time <= TIME_MAX_MICROS
        &&& self.release_time <= TIME_MAX_MICROS
        &&& self.sustain_amplitude <= self.start_amplitude <= AMP_ONE
    }

    pub open spec fn attack_time_spec(self) -> int {
        self.attack_time as int
    }

    pub open spec fn decay_time_spec(self) -> int {
        self.decay_time as int
    }

    pub open spec fn release_time_spec(self) -> int {
        self.release_time as int
    }

    pub open spec fn sustain_amplitude_spec(self) -> int {
        self.sustain_amplitude as int
    }

    pub open spec fn start_amplitude_spec(self) -> int {
        self.start_amplitude as int
    }

    /// The unclamped level of a note that is still pressed, `lifetime`
    /// microseconds after note-on: a linear attack ramp up to
    /// `start_amplitude`, a linear decay down to `sustain_amplitude`, then a
    /// constant sustain. A zero attack time jumps straight to the start
    /// amplitude.
    pub open spec fn held_level(self, lifetime: int) -> int {
        let attack = self.attack_time as int;
        let decay = self.decay_time as int;
        let start = self.start_amplitude as int;
        let sustain = self.sustain_amplitude as int;
        if lifetime < 0 {
            0
        } else if lifetime <= attack {
            if attack == 0 {
                start
            } else {
                (lifetime * start) / attack
            }
        } else if lifetime <= decay {
            start - (((lifetime - attack) * (start - sustain)) / decay)
        } else {
            sustain
        }
    }

    /// The unclamped level of a released note at query time `time`: the
    /// level the note had reached when it was released ramps linearly down
    /// to zero over `release_time` microseconds, starting at `off`. A zero
    /// release time is immediate silence.
    pub open spec fn release_level(self, time: int, on: int, off: int) -> int {
        let release = self.release_time as int;
        let held = self.held_level(off - on);
        if release == 0 {
            0
        } else if time <= off {
            held
        } else if time - off >= release {
            0
        } else {
            held - (((time - off) * held) / release)
        }
    }

    /// The envelope's amplitude multiplier for a note triggered on at `on`,
    /// triggered off at `off` (meaningful only once released), queried at
    /// `time`: the held or release level, with near-silence clamped to zero.
    pub open spec fn level(self, time: int, on: int, off: int, pressed: bool) -> int {
        if pressed {
            amp_clamped(self.held_level(time - on))
        } else {
            amp_clamped(self.release_level(time, on, off))
        }
    }

    /// The held level always lies between zero and the start amplitude.
    pub proof fn lemma_held_level_bounds(self, lifetime: int)
        requires
            self.well_formed(),
        ensures
            0 <= self.held_level(lifetime) <= self.start_amplitude as int,
    {
        let attack = self.attack_time as int;
        let decay = self.decay_time as int;
        let start = self.start_amplitude as int;
        let sustain = self.sustain_amplitude as int;
        if lifetime < 0 {
        } else if lifetime <= attack {
            if attack != 0 {
                assert(0 <= lifetime * start <= attack * start) by (nonlinear_arith)
                    requires
                        0 <= lifetime <= attack,
                        0 <= start,
                ;
                lemma_div_pos_is_pos(lifetime * start, attack);
                lemma_div_is_ordered(lifetime * start, attack * start, attack);
                lemma_div_multiples_vanish(start, attack);
            }
        } else if lifetime <= decay {
            let drop_num = (lifetime - attack) * (start - sustain);
            assert(0 <= drop_num <= decay * (start - sustain)) by (nonlinear_arith)
                requires
                    0 < lifetime - attack <= decay,
                    0 <= start - sustain,
                    drop_num == (lifetime - attack) * (start - sustain),
            ;
            lemma_div_pos_is_pos(drop_num, decay);
            lemma_div_is_ordered(drop_num, decay * (start - sustain), decay);
            lemma_div_multiples_vanish(start - sustain, decay);
        }
    }

    /// Every envelope level lies between zero and the start amplitude.
    pub proof fn lemma_level_bounds(self, time: int, on: int, off: int, pressed: bool)
        requires
            self.well_formed(),
        ensures
            0 <= self.level(time, on, off, pressed) <= self.start_amplitude as int,
            self.level(time, on, off, pressed) <= AMP_ONE as int,
    {
        if pressed {
            self.lemma_held_level_bounds(time - on);
        } else {
            let release = self.release_time as int;
            let held = self.held_level(off - on);
            self.lemma_held_level_bounds(off - on);
            if release != 0 && time > off && time - off < release {
                let fall = ((time - off) * held) / release;
                assert(0 <= (time - off) * held <= release * held) by (nonlinear_arith)
                    requires
                        0 < time - off <= release,
                        0 <= held,
                ;
                lemma_div_pos_is_pos((time - off) * held, release);
                lemma_div_is_ordered((time - off) * held, release * held, release);
                lemma_div_multiples_vanish(held, release);
            }
        }
    }

    /// A fresh envelope: one-second attack, one-second decay, two-second
    /// release, sustain at 0.1 and start amplitude at 0.11.
    pub fn new() -> (r: EnvelopeADSR)
        ensures
            r.well_formed(),
            r.attack_time_spec() == 1_000_000,
            r.decay_time_spec() == 1_000_000,
            r.release_time_spec() == 2_000_000,
            r.sustain_amplitude_spec() == 100_000,
            r.start_amplitude_spec() == 110_000,
    {
        EnvelopeADSR {
            attack_time: 1_000_000,
            decay_time: 1_000_000,
            release_time: 2_000_000,
            sustain_amplitude: 100_000,
            start_amplitude: 110_000,
        }
    }

    /// Computes `level` exactly: the envelope's amplitude multiplier at
    /// `time` for a note with the given trigger timestamps and pressed flag.
    pub fn get_amplitude(
        &self,
        time: u64,
        trigger_on_time: u64,
        trigger_off_time: u64,
        note_pressed: bool,
    ) -> (amp: u64)
        requires
            self.well_formed(),
            time <= TIME_MAX_MICROS,
            trigger_on_time <= TIME_MAX_MICROS,
            trigger_off_time <= TIME_MAX_MICROS,
        ensures
            amp == self.level(
                time as int,
                trigger_on_time as int,
                trigger_off_time as int,
                note_pressed,
            ),
            amp <= AMP_ONE,
            !note_pressed && time as int >= trigger_off_time + self.release_time_spec() ==> amp
                == 0,
    {
        proof {
            self.lemma_level_bounds(
                time as int,
                trigger_on_time as int,
                trigger_off_time as int,
                note_pressed,
            );
            if !note_pressed && time as int >= trigger_off_time + self.release_time_spec() {
                self.lemma_release_reaches_silence(
                    trigger_on_time as int,
                    trigger_off_time as int,
                    time as int,
                );
            }
        }
        let raw: u64 = if note_pressed {
            if time < trigger_on_time {
                0
            } else {
                self.held_amplitude(time - trigger_on_time)
            }
        } else {
            let held: u64 = if trigger_off_time < trigger_on_time {
                0
            } else {
                self.held_amplitude(trigger_off_time - trigger_on_time)
            };
            if self.release_time == 0 {
                0
            } else if time <= trigger_off_time {
                held
            } else {
                let elapsed = time - trigger_off_time;
                if elapsed >= self.release_time {
                    0
                } else {
                    proof {
                        assert((elapsed as int) * (held as int) <= (TIME_MAX_MICROS as int) * (
                        AMP_ONE as int)) by (nonlinear_arith)
                            requires
                                0 <= (elapsed as int) <= TIME_MAX_MICROS as int,
                                0 <= (held as int) <= AMP_ONE as int,
                        ;
                        assert((elapsed as int) * (held as int) <= (self.release_time as int) * (
                        held as int)) by (nonlinear_arith)
                            requires
                                0 <= (elapsed as int) <= self.release_time as int,
                                0 <= (held as int),
                        ;
                        lemma_div_pos_is_pos((elapsed as int) * (held as int), self.release_time as int);
                        lemma_div_is_ordered(
                            (elapsed as int) * (held as int),
                            (self.release_time as int) * (held as int),
                            self.release_time as int,
                        );
                        lemma_div_multiples_vanish(held as int, self.release_time as int);
                    }
                    held - (elapsed * held) / self.release_time
                }
            }
        };
        if raw <= AMP_EPSILON {
            0
        } else {
            raw
        }
    }

    /// Computes `held_level` exactly for a non-negative lifetime.
    fn held_amplitude(&self, lifetime: u64) -> (amp: u64)
        requires
            self.well_formed(),
            lifetime <= 2 * TIME_MAX_MICROS,
        ensures
            amp == self.held_level(lifetime as int),
            amp <= self.start_amplitude,
    {
        proof {
            self.lemma_held_level_bounds(lifetime as int);
        }
        proof {
            assert((lifetime as int) * (self.start_amplitude as int) <= 2 * (TIME_MAX_MICROS
                as int) * (AMP_ONE as int)) by (nonlinear_arith)
                requires
                    0 <= (lifetime as int) <= 2 * (TIME_MAX_MICROS as int),
                    0 <= (self.start_amplitude as int) <= AMP_ONE as int,
            ;
        }
        if lifetime <= self.attack_time {
            if self.attack_time == 0 {
                self.start_amplitude
            } else {
                (lifetime * self.start_amplitude) / self.attack_time
            }
        } else if lifetime <= self.decay_time {
            let ramp = lifetime - self.attack_time;
            let depth = self.start_amplitude - self.sustain_amplitude;
            proof {
                assert((ramp as int) * (depth as int) <= (self.decay_time as int) * (depth as int)
                    <= (TIME_MAX_MICROS as int) * (AMP_ONE as int)) by (nonlinear_arith)
                    requires
                        0 <= (ramp as int) <= self.decay_time as int,
                        0 <= (depth as int) <= AMP_ONE as int,
                        self.decay_time <= TIME_MAX_MICROS,
                ;
                lemma_div_is_ordered(
                    (ramp as int) * (depth as int),
                    (self.decay_time as int) * (depth as int),
                    self.decay_time as int,
                );
                lemma_div_multiples_vanish(depth as int, self.decay_time as int);
            }
            let fall = (ramp * depth) / self.decay_time;
            self.start_amplitude - fall
        } else {
            self.sustain_amplitude
        }
    }

    /// Sets the attack duration, in microseconds, saturating at
    /// `TIME_MAX_MICROS`; the other parameters are unchanged.
    pub fn set_attack_time(&mut self, attack: u64)
        requires
            old(self).well_formed(),
        ensures
            final(self).well_formed(),
            final(self).attack_time_spec() == if attack <= TIME_MAX_MICROS {
                attack as int
            } else {
                TIME_MAX_MICROS as int
            },
            final(self).decay_time_spec() == old(self).decay_time_spec(),
            final(self).release_time_spec() == old(self).release_time_spec(),
            final(self).sustain_amplitude_spec() == old(self).sustain_amplitude_spec(),
            final(self).start_amplitude_spec() == old(self).start_amplitude_spec(),
    {
        self.attack_time = if attack <= TIME_MAX_MICROS {
            attack
        } else {
            TIME_MAX_MICROS
        };
    }

    /// Sets the decay duration, in microseconds, saturating at
    /// `TIME_MAX_MICROS`; the other parameters are unchanged.
    pub fn set_decay_time(&mut self, decay: u64)
        requires
            old(self).well_formed(),
        ensures
            final(self).well_formed(),
            final(self).decay_time_spec() == if decay <= TIME_MAX_MICROS {
                decay as int
            } else {
                TIME_MAX_MICROS as int
            },
            final(self).attack_time_spec() == old(self).attack_time_spec(),
            final(self).release_time_spec() == old(self).release_time_spec(),
            final(self).sustain_amplitude_spec() == old(self).sustain_amplitude_spec(),
            final(self).start_amplitude_spec() == old(self).start_amplitude_spec(),
    {
        self.decay_time = if decay <= TIME_MAX_MICROS {
            decay
        } else {
            TIME_MAX_MICROS
        };
    }

    /// Sets the release duration, in microseconds, saturating at
    /// `TIME_MAX_MICROS`; the other parameters are unchanged.
    pub fn set_release_time(&mut self, release: u64)
        requires
            old(self).well_formed(),
        ensures
            final(self).well_formed(),
            final(self).release_time_spec() == if release <= TIME_MAX_MICROS {
                release as int
            } else {
                TIME_MAX_MICROS as int
            },
            final(self).attack_time_spec() == old(self).attack_time_spec(),
            final(self).decay_time_spec() == old(self).decay_time_spec(),
            final(self).sustain_amplitude_spec() == old(self).sustain_amplitude_spec(),
            final(self).start_amplitude_spec() == old(self).start_amplitude_spec(),
    {
        self.release_time = if release <= TIME_MAX_MICROS {
            release
        } else {
            TIME_MAX_MICROS
        };
    }

    /// During the attack phase the envelope is non-decreasing: querying a
    /// held note at two times within `attack_time` of note-on yields ordered
    /// levels.
    pub proof fn lemma_attack_monotone(self, on: int, off: int, t1: int, t2: int)
        requires
            self.well_formed(),
            on <= t1 <= t2 <= on + self.attack_time_spec(),
        ensures
            self.level(t1, on, off, true) <= self.level(t2, on, off, true),
    {
        let attack = self.attack_time as int;
        let start = self.start_amplitude as int;
        let l1 = t1 - on;
        let l2 = t2 - on;
        if attack != 0 {
            assert(l1 * start <= l2 * start) by (nonlinear_arith)
                requires
                    0 <= l1 <= l2,
                    0 <= start,
            ;
            lemma_div_is_ordered(l1 * start, l2 * start, attack);
        }
    }

    /// At the end of the attack phase a held note has reached the start
    /// amplitude (subject only to the near-silence clamp).
    pub proof fn lemma_attack_reaches_start(self, on: int, off: int)
        requires
            self.well_formed(),
        ensures
            self.level(on + self.attack_time_spec(), on, off, true) == amp_clamped(
                self.start_amplitude as int,
            ),
    {
        let attack = self.attack_time as int;
        let start = self.start_amplitude as int;
        if attack != 0 {
            lemma_div_multiples_vanish(start, attack);
            assert(attack * start == start * attack) by (nonlinear_arith);
        }
    }

    /// A released note is exactly silent once `release_time` has passed
    /// since its note-off.
    pub proof fn lemma_release_reaches_silence(self, on: int, off: int, t: int)
        requires
            self.well_formed(),
            t >= off + self.release_time_spec(),
        ensures
            self.level(t, on, off, false) == 0,
    {
    }
}

} // verus!
