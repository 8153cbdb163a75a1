//! A bank of self-contained voices mixed into one sample stream: the
//! simplest polyphony, one fixed voice per entry, summed per tick.

use vstd::prelude::*;

use crate::constants::TIME_MAX_MICROS;
use crate::fixed::GAIN_FACTOR_LIMIT;
use crate::general_oscillator::GeneralOscillator;

verus! {

/// The most voices one bank can hold.
pub const COMBINED_VOICE_LIMIT: usize = 256;

/// The most a full bank can contribute to one sample:
/// `COMBINED_VOICE_LIMIT * GAIN_FACTOR_LIMIT`.
pub const COMBINED_SAMPLE_LIMIT: i64 = 33_554_432_000_000;

/// The sum of the samples all voices in `voices` yield at time `now`.
pub open spec fn combined_sample_fx(voices: Seq<GeneralOscillator>, now: int) -> int
    decreases voices.len(),
{
    if voices.len() == 0 {
        0
    } else {
        combined_sample_fx(voices.drop_last(), now) + voices.last().sample_at(now)
    }
}

/// A bank of well-formed voices stays within its amplitude budget.
pub proof fn lemma_combined_sample_bound(voices: Seq<GeneralOscillator>, now: int)
    requires
        forall|i: int| 0 <= i < voices.len() ==> (#[trigger] voices[i]).well_formed(),
        voices.len() <= COMBINED_VOICE_LIMIT,
    ensures
        -(voices.len() * (GAIN_FACTOR_LIMIT as int)) <= combined_sample_fx(voices, now)
            <= voices.len() * (GAIN_FACTOR_LIMIT as int),
        -COMBINED_SAMPLE_LIMIT <= combined_sample_fx(voices, now) <= COMBINED_SAMPLE_LIMIT,
    decreases voices.len(),
{
    if voices.len() > 0 {
        lemma_combined_sample_bound(voices.drop_last(), now);
        lemma_voice_sample_bound(voices.last(), now);
    }
}

/// One voice's enveloped sample stays within the gain budget.
proof fn lemma_voice_sample_bound(voice: GeneralOscillator, now: int)
    requires
        voice.well_formed(),
    ensures
        -(GAIN_FACTOR_LIMIT as int) <= voice.sample_at(now) <= GAIN_FACTOR_LIMIT as int,
{
    voice.note_oscillator.lemma_sample_fx_bound(0, 0);
    voice.envelope.lemma_level_bounds(
        now,
        voice.trigger_on_time as int,
        voice.trigger_off_time as int,
        voice.note_pressed,
    );
    crate::fixed::lemma_amp_scaled_bound(
        voice.note_oscillator.sample_fx(0, 0),
        voice.envelope.level(
            now,
            voice.trigger_on_time as int,
            voice.trigger_off_time as int,
            voice.note_pressed,
        ),
        GAIN_FACTOR_LIMIT as int,
        crate::fixed::AMP_ONE as int,
    );
    vstd::arithmetic::div_mod::lemma_div_multiples_vanish(
        GAIN_FACTOR_LIMIT as int,
        crate::fixed::AMP_ONE as int,
    );
}

/// A fixed bank of voices mixed into one stream.
pub struct CombinedOscillator {
    pub oscillators: Vec<GeneralOscillator>,
}

impl CombinedOscillator {
    /// The state every bank keeps.
    pub open spec fn well_formed(self) -> bool {
        &&& self.oscillators@.len() <= COMBINED_VOICE_LIMIT
        &&& forall|i: int|
            0 <= i < self.oscillators@.len() ==> (#[trigger] self.oscillators@[i]).well_formed()
    }

    /// An empty bank.
    pub fn new() -> (r: CombinedOscillator)
        ensures
            r.well_formed(),
            r.oscillators@.len() == 0,
    {
        CombinedOscillator { oscillators: Vec::new() }
    }

    /// Adds one voice to the bank.
    pub fn add_oscillator(&mut self, oscillator: GeneralOscillator)
        requires
            old(self).well_formed(),
            oscillator.well_formed(),
            old(self).oscillators@.len() < COMBINED_VOICE_LIMIT,
        ensures
            final(self).well_formed(),
            final(self).oscillators@ == old(self).oscillators@.push(oscillator),
    {
        self.oscillators.push(oscillator);
    }

    /// How many voices the bank holds.
    pub fn len(&self) -> (n: usize)
        ensures
            n == self.oscillators@.len(),
    {
        self.oscillators.len()
    }

    /// Computes `combined_sample_fx` at time `now` and advances every
    /// voice by one tick.
    pub fn get_sample(&mut self, now: u64) -> (total: i64)
        requires
            old(self).well_formed(),
            now <= TIME_MAX_MICROS,
        ensures
            final(self).well_formed(),
            total == combined_sample_fx(old(self).oscillators@, now as int),
            -COMBINED_SAMPLE_LIMIT <= total <= COMBINED_SAMPLE_LIMIT,
            final(self).oscillators@.len() == old(self).oscillators@.len(),
            forall|i: int|
                0 <= i < old(self).oscillators@.len() ==> ({
                    let v = (#[trigger] final(self).oscillators@[i]);
                    let w = old(self).oscillators@[i];
                    v.note_oscillator == w.note_oscillator.advanced() && v.envelope == w.envelope
                        && v.trigger_on_time == w.trigger_on_time && v.trigger_off_time
                        == w.trigger_off_time && v.note_pressed == w.note_pressed
                }),
    {
        let mut total: i64 = 0;
        let len = self.oscillators.len();
        let mut i: usize = 0;
        while i < len
            invariant
                old(self).well_formed(),
                now <= TIME_MAX_MICROS,
                i <= len,
                len == old(self).oscillators@.len() <= COMBINED_VOICE_LIMIT,
                self.oscillators@.len() == len,
                forall|j: int|
                    i <= j < len ==> #[trigger] self.oscillators@[j] == old(self).oscillators@[j],
                forall|j: int|
                    0 <= j < i ==> ({
                        let v = (#[trigger] self.oscillators@[j]);
                        let w = old(self).oscillators@[j];
                        v.note_oscillator == w.note_oscillator.advanced() && v.envelope
                            == w.envelope && v.trigger_on_time == w.trigger_on_time
                            && v.trigger_off_time == w.trigger_off_time && v.note_pressed
                            == w.note_pressed
                    }),
                forall|j: int|
                    0 <= j < len ==> (#[trigger] self.oscillators@[j]).well_formed(),
                total == combined_sample_fx(old(self).oscillators@.take(i as int), now as int),
                -COMBINED_SAMPLE_LIMIT <= total <= COMBINED_SAMPLE_LIMIT,
            decreases len - i,
        {
            proof {
                assert(old(self).oscillators@.take(i + 1).drop_last() =~= old(
                    self,
                ).oscillators@.take(i as int));
                lemma_combined_sample_bound(
                    old(self).oscillators@.take(i as int),
                    now as int,
                );
                lemma_voice_sample_bound(old(self).oscillators@[i as int], now as int);
                assert((i as int) * (GAIN_FACTOR_LIMIT as int) <= (COMBINED_VOICE_LIMIT as int - 1)
                    * (GAIN_FACTOR_LIMIT as int)) by (nonlinear_arith)
                    requires
                        i as int <= COMBINED_VOICE_LIMIT as int - 1,
                ;
            }
            let sample = self.oscillators[i].get_sample(now);
            total = total + sample;
            i = i + 1;
        }
        proof {
            assert(old(self).oscillators@.take(len as int) =~= old(self).oscillators@);
        }
        total
    }
}

} // verus!
