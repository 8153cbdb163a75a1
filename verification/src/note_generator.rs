//! One sounding note: a cluster of detuned unison oscillator voices per
//! enabled sound-generator slot, together with the note's trigger
//! timestamps and pressed state.
//!
//! Unison voices are laid out symmetrically around the note's own pitch:
//! pair `i` sits `detune / 2^i` above and below the centre, so an even
//! count is all pairs and an odd count adds one voice exactly at the
//! centre. Pairs are stored outside-in: the widest pair first.

use vstd::arithmetic::power2::pow2;
use vstd::prelude::*;

use crate::constants::{MAX_UNISON, NUM_OSCILLATORS, TIME_MAX_MICROS};
use crate::fixed::GAIN_FACTOR_LIMIT;
use crate::oscillator::{Oscillator, TICK_MODULUS};
use crate::pitch::{freq_of_cents, frequency_from_cents, FREQ_LIMIT_MHZ};
use crate::wavetype::WaveType;

verus! {

/// The widest detune one unison pair can reach: two semitones.
pub const UNISON_MAX_DETUNE_CENTS: u64 = 200;

/// The lowest note number the engine accepts.
pub const NOTE_MIN: i64 = -82;

/// The highest note number the engine accepts.
pub const NOTE_MAX: i64 = 142;

/// The most a single note can contribute to one sample:
/// `NUM_OSCILLATORS * MAX_UNISON * GAIN_FACTOR_LIMIT`.
pub const NOTE_SAMPLE_LIMIT: i64 = 6_291_456_000_000;

/// The detune of unison pair `pair`, in cents: the detune fraction of the
/// maximum detune, halved for each pair closer to the centre.
pub open spec fn detune_cents(detune_permille: int, pair: nat) -> int {
    (detune_permille * (UNISON_MAX_DETUNE_CENTS as int)) / (1000 * pow2(pair) as int)
}

/// The pitches, in cents, of the first `pairs` unison pairs around centre
/// pitch `c`: pair `i` contributes `c + detune(i)` then `c - detune(i)`,
/// widest pair first.
pub open spec fn pair_cents(c: int, detune_permille: int, pairs: nat) -> Seq<int>
    decreases pairs,
{
    if pairs == 0 {
        Seq::empty()
    } else {
        pair_cents(c, detune_permille, (pairs - 1) as nat) + seq![
            c + detune_cents(detune_permille, (pairs - 1) as nat),
            c - detune_cents(detune_permille, (pairs - 1) as nat),
        ]
    }
}

/// The pitches, in cents, of a whole unison cluster of `unisons` voices
/// around centre pitch `c`: an even count is all symmetric pairs, an odd
/// count adds one voice exactly at the centre, last.
pub open spec fn unison_cents(c: int, unisons: int, detune_permille: int) -> Seq<int> {
    if unisons % 2 == 0 {
        pair_cents(c, detune_permille, (unisons / 2) as nat)
    } else {
        pair_cents(c, detune_permille, ((unisons - 1) / 2) as nat).push(c)
    }
}

/// A pair sequence holds two pitches per pair.
pub proof fn lemma_pair_cents_len(c: int, detune_permille: int, pairs: nat)
    ensures
        pair_cents(c, detune_permille, pairs).len() == 2 * pairs,
    decreases pairs,
{
    if pairs > 0 {
        lemma_pair_cents_len(c, detune_permille, (pairs - 1) as nat);
    }
}

/// A unison cluster holds exactly one pitch per requested voice.
pub proof fn lemma_unison_cents_len(c: int, unisons: int, detune_permille: int)
    requires
        unisons >= 1,
    ensures
        unison_cents(c, unisons, detune_permille).len() == unisons,
{
    if unisons % 2 == 0 {
        lemma_pair_cents_len(c, detune_permille, (unisons / 2) as nat);
    } else {
        lemma_pair_cents_len(c, detune_permille, ((unisons - 1) / 2) as nat);
    }
}

/// A pair's detune never exceeds the maximum detune.
pub proof fn lemma_detune_cents_bounds(detune_permille: int, pair: nat)
    requires
        0 <= detune_permille <= 1000,
    ensures
        0 <= detune_cents(detune_permille, pair) <= UNISON_MAX_DETUNE_CENTS as int,
{
    vstd::arithmetic::power2::lemma_pow2_pos(pair);
    let den = 1000 * pow2(pair);
    assert(1000 <= den) by (nonlinear_arith)
        requires
            pow2(pair) >= 1,
            den == 1000 * pow2(pair),
    ;
    vstd::arithmetic::div_mod::lemma_div_pos_is_pos(
        detune_permille * (UNISON_MAX_DETUNE_CENTS as int),
        den as int,
    );
    vstd::arithmetic::div_mod::lemma_div_is_ordered_by_denominator(
        detune_permille * (UNISON_MAX_DETUNE_CENTS as int),
        1000,
        den as int,
    );
    vstd::arithmetic::div_mod::lemma_div_is_ordered(
        detune_permille * (UNISON_MAX_DETUNE_CENTS as int),
        1000 * (UNISON_MAX_DETUNE_CENTS as int),
        1000,
    );
    vstd::arithmetic::div_mod::lemma_div_multiples_vanish(UNISON_MAX_DETUNE_CENTS as int, 1000);
}

/// Unison symmetry: a four-voice cluster consists of two symmetric pairs
/// around the centre pitch, the second pair at exactly half the detune of
/// the first, and — as long as the detune is positive — no voice at the
/// centre itself. Stated for detunes given in whole hundredths (multiples
/// of ten permille), where the fixed-point halving is exact.
pub proof fn lemma_unison_symmetry(c: int, detune_permille: int)
    requires
        10 <= detune_permille <= 1000,
        detune_permille % 10 == 0,
    ensures
        unison_cents(c, 4, detune_permille).len() == 4,
        unison_cents(c, 4, detune_permille)[0] == c + detune_cents(detune_permille, 0),
        unison_cents(c, 4, detune_permille)[1] == c - detune_cents(detune_permille, 0),
        unison_cents(c, 4, detune_permille)[2] == c + detune_cents(detune_permille, 1),
        unison_cents(c, 4, detune_permille)[3] == c - detune_cents(detune_permille, 1),
        detune_cents(detune_permille, 0) == 2 * detune_cents(detune_permille, 1),
        detune_cents(detune_permille, 1) > 0,
        forall|j: int|
            0 <= j < 4 ==> #[trigger] unison_cents(c, 4, detune_permille)[j] != c,
{
    lemma_pair_cents_len(c, detune_permille, 0);
    lemma_pair_cents_len(c, detune_permille, 1);
    lemma_pair_cents_len(c, detune_permille, 2);
    vstd::arithmetic::power2::lemma2_to64();
    let k = detune_permille / 10;
    assert(detune_permille == 10 * k);
    assert(detune_cents(detune_permille, 0) == (detune_permille * 200) / 1000);
    assert((10 * k * 200) / 1000 == 2 * k) by (nonlinear_arith);
    assert((10 * k * 200) / 2000 == k) by (nonlinear_arith);
}

/// The frequencies of a four-voice unison cluster spread symmetrically
/// around the centre: each above-pair voice sounds at or above the centre
/// frequency and each below-pair voice at or below it, with the wider pair
/// farther out.
pub proof fn lemma_unison_frequencies_ordered(note: int, detune_permille: int)
    requires
        10 <= detune_permille <= 1000,
        detune_permille % 10 == 0,
        NOTE_MIN as int <= note <= NOTE_MAX as int,
    ensures
        ({
            let c = note * 100;
            let cs = unison_cents(c, 4, detune_permille);
            freq_of_cents(cs[1]) <= freq_of_cents(cs[3]) <= freq_of_cents(c) <= freq_of_cents(
                cs[2],
            ) <= freq_of_cents(cs[0])
        }),
{
    let c = note * 100;
    lemma_unison_symmetry(c, detune_permille);
    lemma_detune_cents_bounds(detune_permille, 0);
    lemma_detune_cents_bounds(detune_permille, 1);
    let d0 = detune_cents(detune_permille, 0);
    let d1 = detune_cents(detune_permille, 1);
    crate::pitch::lemma_freq_of_cents_monotone(c - d0, c - d1);
    crate::pitch::lemma_freq_of_cents_monotone(c - d1, c);
    crate::pitch::lemma_freq_of_cents_monotone(c, c + d1);
    crate::pitch::lemma_freq_of_cents_monotone(c + d1, c + d0);
}

/// Per-slot voice configuration carried from the pool to a note: the
/// slot's enabled flag, waveform, unison count and detune fraction.
#[derive(Debug, Copy, Clone)]
pub struct NoteOscillatorParams {
    pub enabled: bool,
    pub wave_type: WaveType,
    pub unisons: i64,
    pub unison_detune_permille: u64,
}

impl NoteOscillatorParams {
    /// The parameter ranges every slot configuration keeps.
    pub open spec fn well_formed(self) -> bool {
        &&& 1 <= self.unisons <= MAX_UNISON
        &&& self.unison_detune_permille <= 1000
    }

    /// An enabled slot configuration with the given waveform, unison count
    /// and detune fraction.
    pub fn new(wave_type: WaveType, unisons: i64, unison_detune_permille: u64) -> (r:
        NoteOscillatorParams)
        requires
            1 <= unisons <= MAX_UNISON,
            unison_detune_permille <= 1000,
        ensures
            r.well_formed(),
            r.enabled,
            r.wave_type == wave_type,
            r.unisons == unisons,
            r.unison_detune_permille == unison_detune_permille,
    {
        NoteOscillatorParams { enabled: true, wave_type, unisons, unison_detune_permille }
    }
}

/// The voices of one oscillator slot within a note, with the flag that
/// decides whether they are mixed in. Disabling a slot mutes it but keeps
/// its voices, so re-enabling does not reallocate or click.
pub struct NoteSlot {
    pub enabled: bool,
    pub voices: Vec<Oscillator>,
}

impl NoteSlot {
    /// The state every slot keeps: at most `MAX_UNISON` voices, all
    /// well-formed.
    pub open spec fn well_formed(self) -> bool {
        &&& self.voices@.len() <= MAX_UNISON
        &&& forall|j: int| 0 <= j < self.voices@.len() ==> (#[trigger] self.voices@[j]).well_formed()
    }
}

/// The voices of `voices` are exactly one unison cluster for `note` under
/// `params`: voice `j` sounds the `j`-th cluster pitch with the slot's
/// waveform.
pub open spec fn voices_tuned(voices: Seq<Oscillator>, note: int, params: NoteOscillatorParams) -> bool {
    let cs = unison_cents(note * 100, params.unisons as int, params.unison_detune_permille as int);
    &&& voices.len() == params.unisons
    &&& forall|j: int|
        0 <= j < voices.len() ==> (#[trigger] voices[j]).frequency == freq_of_cents(cs[j])
            && voices[j].wave_type == params.wave_type
}

/// Every voice of `voices` sits at sample index `start`: the whole cluster
/// shares one phase, so building or rebuilding it cannot click.
pub open spec fn voices_start_at(voices: Seq<Oscillator>, start: int) -> bool {
    forall|j: int| 0 <= j < voices.len() ==> (#[trigger] voices[j]).sample_index == start
}

/// One sounding note: its trigger timestamps, pressed state, note number
/// and per-slot unison voices.
pub struct NoteGenerator {
    pub trigger_on_time: u64,
    pub trigger_off_time: u64,
    pub note_pressed: bool,
    pub note: i64,
    pub slots: Vec<NoteSlot>,
}

impl NoteGenerator {
    /// The state every note keeps.
    pub open spec fn well_formed(self) -> bool {
        &&& self.slots@.len() == NUM_OSCILLATORS
        &&& NOTE_MIN <= self.note <= NOTE_MAX
        &&& self.trigger_on_time <= TIME_MAX_MICROS
        &&& self.trigger_off_time <= TIME_MAX_MICROS
        &&& forall|s: int| 0 <= s < self.slots@.len() ==> (#[trigger] self.slots@[s]).well_formed()
    }

    /// Builds a note from the current per-slot parameters: each enabled
    /// slot gets a fresh unison cluster starting at phase zero, each
    /// disabled slot stays empty. The note is stamped pressed at `now`.
    pub fn new(note: i64, note_params: &Vec<NoteOscillatorParams>, now: u64) -> (r: NoteGenerator)
        requires
            NOTE_MIN <= note <= NOTE_MAX,
            note_params@.len() == NUM_OSCILLATORS,
            forall|s: int| 0 <= s < note_params@.len() ==> (#[trigger] note_params@[s]).well_formed(),
            now <= TIME_MAX_MICROS,
        ensures
            r.well_formed(),
            r.trigger_on_time == now,
            r.trigger_off_time == 0,
            r.note_pressed,
            r.note == note,
            forall|s: int|
                0 <= s < NUM_OSCILLATORS ==> (#[trigger] r.slots@[s]).enabled == note_params@[s].enabled,
            forall|s: int|
                0 <= s < NUM_OSCILLATORS && note_params@[s].enabled ==> voices_tuned(
                    (#[trigger] r.slots@[s]).voices@,
                    note as int,
                    note_params@[s],
                ),
            forall|s: int|
                0 <= s < NUM_OSCILLATORS && !note_params@[s].enabled ==> (
                #[trigger] r.slots@[s]).voices@.len() == 0,
            forall|s: int|
                0 <= s < NUM_OSCILLATORS ==> voices_start_at(
                    (#[trigger] r.slots@[s]).voices@,
                    0,
                ),
    {
        let mut slots: Vec<NoteSlot> = Vec::new();
        let mut s: usize = 0;
        while s < NUM_OSCILLATORS
            invariant
                s <= NUM_OSCILLATORS,
                slots@.len() == s,
                note_params@.len() == NUM_OSCILLATORS,
                NOTE_MIN <= note <= NOTE_MAX,
                forall|i: int|
                    0 <= i < note_params@.len() ==> (#[trigger] note_params@[i]).well_formed(),
                forall|i: int| 0 <= i < s ==> (#[trigger] slots@[i]).well_formed(),
                forall|i: int|
                    0 <= i < s ==> (#[trigger] slots@[i]).enabled == note_params@[i].enabled,
                forall|i: int|
                    0 <= i < s && note_params@[i].enabled ==> voices_tuned(
                        (#[trigger] slots@[i]).voices@,
                        note as int,
                        note_params@[i],
                    ),
                forall|i: int|
                    0 <= i < s && !note_params@[i].enabled ==> (#[trigger] slots@[i]).voices@.len()
                        == 0,
                forall|i: int|
                    0 <= i < s ==> voices_start_at((#[trigger] slots@[i]).voices@, 0),
            decreases NUM_OSCILLATORS - s,
        {
            let param = &note_params[s];
            if param.enabled {
                let voices = Self::get_unison_voices_for_note(note, param, 0);
                slots.push(NoteSlot { enabled: true, voices });
            } else {
                slots.push(NoteSlot { enabled: false, voices: Vec::new() });
            }
            s = s + 1;
        }
        NoteGenerator { trigger_on_time: now, trigger_off_time: 0, note_pressed: true, note, slots }
    }

    /// Builds the unison cluster for one slot: all symmetric pairs, plus a
    /// centre voice if the count is odd, every voice starting at
    /// `starting_sample_index`.
    fn get_unison_voices_for_note(
        note: i64,
        param: &NoteOscillatorParams,
        starting_sample_index: u64,
    ) -> (voices: Vec<Oscillator>)
        requires
            NOTE_MIN <= note <= NOTE_MAX,
            param.well_formed(),
            starting_sample_index < TICK_MODULUS,
        ensures
            voices_tuned(voices@, note as int, *param),
            voices@.len() <= MAX_UNISON,
            forall|j: int| 0 <= j < voices@.len() ==> (#[trigger] voices@[j]).well_formed(),
            forall|j: int|
                0 <= j < voices@.len() ==> (#[trigger] voices@[j]).sample_index
                    == starting_sample_index,
    {
        proof {
            lemma_unison_cents_len(
                note as int * 100,
                param.unisons as int,
                param.unison_detune_permille as int,
            );
        }
        let mut voices: Vec<Oscillator> = Vec::new();
        if param.unisons % 2 == 0 {
            let pairs = param.unisons / 2;
            Self::add_unison_oscillators_to_vec(
                &mut voices,
                note,
                pairs,
                param.unison_detune_permille,
                param.wave_type,
                starting_sample_index,
            );
        } else {
            let pairs = (param.unisons - 1) / 2;
            Self::add_unison_oscillators_to_vec(
                &mut voices,
                note,
                pairs,
                param.unison_detune_permille,
                param.wave_type,
                starting_sample_index,
            );
            let freq = frequency_from_cents(note * 100);
            voices.push(Oscillator::new(freq, param.wave_type, starting_sample_index));
        }
        voices
    }

    /// Appends `unisons_to_add` symmetric detuned pairs around the note's
    /// pitch, widest pair first.
    fn add_unison_oscillators_to_vec(
        osc_vec: &mut Vec<Oscillator>,
        note: i64,
        unisons_to_add: i64,
        detune_permille: u64,
        wave_type: WaveType,
        starting_sample_index: u64,
    )
        requires
            old(osc_vec)@.len() == 0,
            NOTE_MIN <= note <= NOTE_MAX,
            0 <= unisons_to_add <= MAX_UNISON / 2,
            detune_permille <= 1000,
            starting_sample_index < TICK_MODULUS,
        ensures
            final(osc_vec)@.len() == 2 * unisons_to_add,
            ({
                let cs = pair_cents(note as int * 100, detune_permille as int, unisons_to_add as nat);
                forall|j: int|
                    0 <= j < final(osc_vec)@.len() ==> (#[trigger] final(osc_vec)@[j]).frequency
                        == freq_of_cents(cs[j]) && final(osc_vec)@[j].wave_type == wave_type
                        && final(osc_vec)@[j].sample_index == starting_sample_index
                        && final(osc_vec)@[j].well_formed()
            }),
    {
        let c: i64 = note * 100;
        let mut i: i64 = 0;
        let mut divisor: u64 = 1000;
        proof {
            vstd::arithmetic::power2::lemma2_to64();
            lemma_pair_cents_len(c as int, detune_permille as int, unisons_to_add as nat);
        }
        while i < unisons_to_add
            invariant
                0 <= i <= unisons_to_add <= MAX_UNISON / 2,
                NOTE_MIN <= note <= NOTE_MAX,
                c == note * 100,
                detune_permille <= 1000,
                starting_sample_index < TICK_MODULUS,
                divisor == 1000 * pow2(i as nat) as int,
                1000 <= divisor <= 1000 * 256,
                osc_vec@.len() == 2 * i,
                ({
                    let cs = pair_cents(c as int, detune_permille as int, i as nat);
                    forall|j: int|
                        0 <= j < osc_vec@.len() ==> (#[trigger] osc_vec@[j]).frequency
                            == freq_of_cents(cs[j]) && osc_vec@[j].wave_type == wave_type
                            && osc_vec@[j].sample_index == starting_sample_index
                            && osc_vec@[j].well_formed()
                }),
            decreases unisons_to_add - i,
        {
            proof {
                lemma_pair_cents_len(c as int, detune_permille as int, i as nat);
                lemma_pair_cents_len(c as int, detune_permille as int, (i + 1) as nat);
                lemma_detune_cents_bounds(detune_permille as int, i as nat);
            }
            let note_detune: u64 = (detune_permille * UNISON_MAX_DETUNE_CENTS) / divisor;
            let above = frequency_from_cents(c + note_detune as i64);
            osc_vec.push(Oscillator::new(above, wave_type, starting_sample_index));
            let below = frequency_from_cents(c - note_detune as i64);
            osc_vec.push(Oscillator::new(below, wave_type, starting_sample_index));
            proof {
                vstd::arithmetic::power2::lemma_pow2_unfold((i + 1) as nat);
                vstd::arithmetic::power2::lemma_pow2_pos((i + 1) as nat);
                vstd::arithmetic::power2::lemma_pow2_strictly_increases((i + 1) as nat, 9);
                vstd::arithmetic::power2::lemma2_to64();
                let cs_next = pair_cents(c as int, detune_permille as int, (i + 1) as nat);
                assert(cs_next[2 * i] == c + detune_cents(detune_permille as int, i as nat));
                assert(cs_next[2 * i + 1] == c - detune_cents(detune_permille as int, i as nat));
            }
            divisor = divisor * 2;
            i = i + 1;
        }
    }

    /// Re-tunes the first `num_unisons` symmetric pairs in place: each
    /// voice keeps its own sample index, so the waveform stays continuous.
    fn set_unison_params(
        osc_unison_voices: &mut Vec<Oscillator>,
        note: i64,
        num_unisons: usize,
        note_params: &NoteOscillatorParams,
    )
        requires
            NOTE_MIN <= note <= NOTE_MAX,
            note_params.well_formed(),
            2 * num_unisons <= old(osc_unison_voices)@.len(),
            num_unisons <= MAX_UNISON / 2,
            forall|j: int|
                0 <= j < old(osc_unison_voices)@.len() ==> (
                #[trigger] old(osc_unison_voices)@[j]).well_formed(),
        ensures
            final(osc_unison_voices)@.len() == old(osc_unison_voices)@.len(),
            ({
                let cs = pair_cents(
                    note as int * 100,
                    note_params.unison_detune_permille as int,
                    num_unisons as nat,
                );
                forall|j: int|
                    0 <= j < 2 * num_unisons ==> ({
                        let v = (#[trigger] final(osc_unison_voices)@[j]);
                        let w = old(osc_unison_voices)@[j];
                        v.frequency == freq_of_cents(cs[j]) && v.wave_type == note_params.wave_type
                            && v.sample_index == w.sample_index && v.gain_db == w.gain_db
                            && v.amplitude == w.amplitude
                    })
            }),
            forall|j: int|
                2 * num_unisons <= j < final(osc_unison_voices)@.len()
                    ==> #[trigger] final(osc_unison_voices)@[j] == old(osc_unison_voices)@[j],
            forall|j: int|
                0 <= j < final(osc_unison_voices)@.len() ==> (
                #[trigger] final(osc_unison_voices)@[j]).well_formed(),
    {
        let c: i64 = note * 100;
        let mut i: usize = 0;
        let mut divisor: u64 = 1000;
        proof {
            vstd::arithmetic::power2::lemma2_to64();
        }
        while i < num_unisons
            invariant
                0 <= i <= num_unisons,
                NOTE_MIN <= note <= NOTE_MAX,
                c == note * 100,
                note_params.well_formed(),
                num_unisons <= MAX_UNISON / 2,
                2 * num_unisons <= osc_unison_voices@.len(),
                osc_unison_voices@.len() == old(osc_unison_voices)@.len(),
                divisor == 1000 * pow2(i as nat) as int,
                1000 <= divisor <= 1000 * 256,
                ({
                    let cs = pair_cents(
                        c as int,
                        note_params.unison_detune_permille as int,
                        num_unisons as nat,
                    );
                    forall|j: int|
                        0 <= j < 2 * i ==> ({
                            let v = (#[trigger] osc_unison_voices@[j]);
                            let w = old(osc_unison_voices)@[j];
                            v.frequency == freq_of_cents(cs[j]) && v.wave_type
                                == note_params.wave_type && v.sample_index == w.sample_index
                                && v.gain_db == w.gain_db && v.amplitude == w.amplitude
                        })
                }),
                forall|j: int|
                    2 * i <= j < osc_unison_voices@.len() ==> #[trigger] osc_unison_voices@[j]
                        == old(osc_unison_voices)@[j],
                forall|j: int|
                    0 <= j < osc_unison_voices@.len() ==> (
                    #[trigger] osc_unison_voices@[j]).well_formed(),
            decreases num_unisons - i,
        {
            proof {
                let dp = note_params.unison_detune_permille as int;
                lemma_detune_cents_bounds(dp, i as nat);
                lemma_pair_cents_prefix_stable(c as int, dp, (i + 1) as nat, num_unisons as nat);
                lemma_pair_cents_len(c as int, dp, i as nat);
                lemma_pair_cents_len(c as int, dp, (i + 1) as nat);
                assert(pair_cents(c as int, dp, (i + 1) as nat)[2 * i] == c + detune_cents(
                    dp,
                    i as nat,
                ));
                assert(pair_cents(c as int, dp, (i + 1) as nat)[2 * i + 1] == c - detune_cents(
                    dp,
                    i as nat,
                ));
            }
            let note_detune: u64 = (note_params.unison_detune_permille * UNISON_MAX_DETUNE_CENTS)
                / divisor;
            let above = frequency_from_cents(c + note_detune as i64);
            osc_unison_voices[2 * i].set_frequency(above);
            osc_unison_voices[2 * i].set_wave_type(note_params.wave_type);
            let below = frequency_from_cents(c - note_detune as i64);
            osc_unison_voices[2 * i + 1].set_frequency(below);
            osc_unison_voices[2 * i + 1].set_wave_type(note_params.wave_type);
            proof {
                vstd::arithmetic::power2::lemma_pow2_unfold((i + 1) as nat);
                vstd::arithmetic::power2::lemma_pow2_pos((i + 1) as nat);
                vstd::arithmetic::power2::lemma_pow2_strictly_increases((i + 1) as nat, 9);
                vstd::arithmetic::power2::lemma2_to64();
            }
            divisor = divisor * 2;
            i = i + 1;
        }
    }

    /// Applies new per-slot parameters to one slot of this note. A disabled
    /// slot is muted but keeps its voices. For an enabled slot, a changed
    /// unison count rebuilds the cluster at the phase of the first
    /// surviving voice (so the new cluster does not restart from zero and
    /// click), while an unchanged count re-tunes every voice in place.
    pub fn set_note_params(&mut self, osc_num: usize, note_params: &NoteOscillatorParams)
        requires
            old(self).well_formed(),
            osc_num < NUM_OSCILLATORS,
            note_params.well_formed(),
        ensures
            final(self).well_formed(),
            final(self).note == old(self).note,
            final(self).trigger_on_time == old(self).trigger_on_time,
            final(self).trigger_off_time == old(self).trigger_off_time,
            final(self).note_pressed == old(self).note_pressed,
            final(self).slots@.len() == NUM_OSCILLATORS,
            forall|s: int|
                0 <= s < NUM_OSCILLATORS && s != osc_num ==> #[trigger] final(self).slots@[s]
                    == old(self).slots@[s],
            final(self).slots@[osc_num as int].enabled == note_params.enabled,
            !note_params.enabled ==> final(self).slots@[osc_num as int].voices
                == old(self).slots@[osc_num as int].voices,
            note_params.enabled ==> voices_tuned(
                final(self).slots@[osc_num as int].voices@,
                old(self).note as int,
                *note_params,
            ),
            ({
                let old_voices = old(self).slots@[osc_num as int].voices@;
                let new_voices = final(self).slots@[osc_num as int].voices@;
                let inherited: int = if old_voices.len() > 0 {
                    old_voices[0].sample_index as int
                } else {
                    0
                };
                &&& (note_params.enabled && note_params.unisons != old_voices.len()
                    ==> voices_start_at(new_voices, inherited))
                &&& (note_params.enabled && note_params.unisons == old_voices.len()
                    ==> forall|j: int|
                    0 <= j < new_voices.len() ==> (#[trigger] new_voices[j]).sample_index
                        == old_voices[j].sample_index && new_voices[j].gain_db
                        == old_voices[j].gain_db && new_voices[j].amplitude
                        == old_voices[j].amplitude)
            }),
    {
        let mut slot = self.slots.remove(osc_num);
        if !note_params.enabled {
            slot.enabled = false;
        } else {
            slot.enabled = true;
            let mut starting_sample_index: u64 = 0;
            if slot.voices.len() > 0 {
                starting_sample_index = slot.voices[0].get_sample_index();
            }
            let current_count = slot.voices.len();
            if note_params.unisons as usize != current_count {
                let voices = Self::get_unison_voices_for_note(
                    self.note,
                    note_params,
                    starting_sample_index,
                );
                slot.voices = voices;
            } else {
                proof {
                    lemma_unison_cents_len(
                        self.note as int * 100,
                        note_params.unisons as int,
                        note_params.unison_detune_permille as int,
                    );
                }
                if current_count % 2 == 0 {
                    let num_unisons = current_count / 2;
                    Self::set_unison_params(&mut slot.voices, self.note, num_unisons, note_params);
                } else {
                    let num_unisons = (current_count - 1) / 2;
                    Self::set_unison_params(&mut slot.voices, self.note, num_unisons, note_params);
                    let centre = frequency_from_cents(self.note * 100);
                    let last = current_count - 1;
                    slot.voices[last].set_frequency(centre);
                    slot.voices[last].set_wave_type(note_params.wave_type);
                }
                proof {
                    assert(voices_tuned(slot.voices@, self.note as int, *note_params));
                }
            }
        }
        self.slots.insert(osc_num, slot);
        proof {
            assert(self.slots@ =~= old(self).slots@.update(
                osc_num as int,
                self.slots@[osc_num as int],
            ));
        }
    }

    /// Stamps the note released at `now`: its envelope enters the release
    /// phase from this moment.
    pub fn note_released(&mut self, now: u64)
        requires
            old(self).well_formed(),
            now <= TIME_MAX_MICROS,
        ensures
            final(self).well_formed(),
            *final(self) == (NoteGenerator {
                trigger_off_time: now,
                note_pressed: false,
                ..*old(self)
            }),
    {
        self.trigger_off_time = now;
        self.note_pressed = false;
    }

    /// The raw (unenveloped) sample this note yields at its current state:
    /// the sum of every voice of every enabled slot.
    pub open spec fn sample_fx(self, lfo_freq: int, lfo_amp: int) -> int {
        slots_sample_sum(self.slots@, lfo_freq, lfo_amp)
    }

    /// Computes `sample_fx` and advances every voice of every enabled slot
    /// by one tick; disabled slots are skipped and left untouched.
    pub fn get_sample(&mut self, lfo_freq: u64, lfo_amplitude: u64) -> (total: i64)
        requires
            old(self).well_formed(),
            lfo_freq < FREQ_LIMIT_MHZ,
            lfo_amplitude <= GAIN_FACTOR_LIMIT,
        ensures
            final(self).well_formed(),
            total == old(self).sample_fx(lfo_freq as int, lfo_amplitude as int),
            -NOTE_SAMPLE_LIMIT <= total <= NOTE_SAMPLE_LIMIT,
            final(self).note == old(self).note,
            final(self).trigger_on_time == old(self).trigger_on_time,
            final(self).trigger_off_time == old(self).trigger_off_time,
            final(self).note_pressed == old(self).note_pressed,
            final(self).slots@.len() == old(self).slots@.len(),
            forall|s: int|
                0 <= s < old(self).slots@.len() && !old(self).slots@[s].enabled
                    ==> #[trigger] final(self).slots@[s] == old(self).slots@[s],
            forall|s: int|
                0 <= s < old(self).slots@.len() && old(self).slots@[s].enabled ==> (
                #[trigger] final(self).slots@[s]).enabled && final(self).slots@[s].voices@
                    == old(self).slots@[s].voices@.map_values(|o: Oscillator| o.advanced()),
    {
        let mut total: i64 = 0;
        let mut s: usize = 0;
        let num_slots = self.slots.len();
        proof {
            lemma_slots_sample_sum_bound(
                self.slots@,
                lfo_freq as int,
                lfo_amplitude as int,
            );
        }
        while s < num_slots
            invariant
                old(self).well_formed(),
                s <= num_slots,
                num_slots == old(self).slots@.len() == NUM_OSCILLATORS,
                self.slots@.len() == num_slots,
                lfo_freq < FREQ_LIMIT_MHZ,
                lfo_amplitude <= GAIN_FACTOR_LIMIT,
                self.note == old(self).note,
                self.trigger_on_time == old(self).trigger_on_time,
                self.trigger_off_time == old(self).trigger_off_time,
                self.note_pressed == old(self).note_pressed,
                forall|i: int| 0 <= i < num_slots ==> (#[trigger] self.slots@[i]).well_formed(),
                NOTE_MIN <= self.note <= NOTE_MAX,
                self.trigger_on_time <= TIME_MAX_MICROS,
                self.trigger_off_time <= TIME_MAX_MICROS,
                total == slots_sample_sum(
                    old(self).slots@.take(s as int),
                    lfo_freq as int,
                    lfo_amplitude as int,
                ),
                -NOTE_SAMPLE_LIMIT <= total <= NOTE_SAMPLE_LIMIT,
                forall|i: int| s <= i < num_slots ==> #[trigger] self.slots@[i] == old(self).slots@[i],
                forall|i: int|
                    0 <= i < s && !old(self).slots@[i].enabled ==> #[trigger] self.slots@[i]
                        == old(self).slots@[i],
                forall|i: int|
                    0 <= i < s && old(self).slots@[i].enabled ==> (
                    #[trigger] self.slots@[i]).enabled && self.slots@[i].voices@
                        == old(self).slots@[i].voices@.map_values(|o: Oscillator| o.advanced()),
            decreases num_slots - s,
        {
            proof {
                assert(old(self).slots@.take(s + 1).drop_last() =~= old(self).slots@.take(s as int));
                lemma_slots_sample_sum_bound(
                    old(self).slots@.take(s as int),
                    lfo_freq as int,
                    lfo_amplitude as int,
                );
                lemma_voices_sample_sum_bound(
                    old(self).slots@[s as int].voices@,
                    lfo_freq as int,
                    lfo_amplitude as int,
                );
            }
            if self.slots[s].enabled {
                let ghost prev = self.slots@;
                let mut slot = self.slots.remove(s);
                let slot_total = sum_slot_voices(&mut slot.voices, lfo_freq, lfo_amplitude);
                self.slots.insert(s, slot);
                proof {
                    assert(self.slots@ =~= prev.update(s as int, self.slots@[s as int]));
                }
                total = total + slot_total;
            }
            s = s + 1;
        }
        proof {
            assert(old(self).slots@.take(num_slots as int) =~= old(self).slots@);
        }
        total
    }
}

/// The sum of the samples all voices in `voices` yield at their current
/// state.
pub open spec fn voices_sample_sum(voices: Seq<Oscillator>, lfo_freq: int, lfo_amp: int) -> int
    decreases voices.len(),
{
    if voices.len() == 0 {
        0
    } else {
        voices_sample_sum(voices.drop_last(), lfo_freq, lfo_amp) + voices.last().sample_fx(
            lfo_freq,
            lfo_amp,
        )
    }
}

/// The sum of the samples of every enabled slot in `slots`.
pub open spec fn slots_sample_sum(slots: Seq<NoteSlot>, lfo_freq: int, lfo_amp: int) -> int
    decreases slots.len(),
{
    if slots.len() == 0 {
        0
    } else {
        slots_sample_sum(slots.drop_last(), lfo_freq, lfo_amp) + if slots.last().enabled {
            voices_sample_sum(slots.last().voices@, lfo_freq, lfo_amp)
        } else {
            0
        }
    }
}

/// A cluster of well-formed voices stays within its amplitude budget.
pub proof fn lemma_voices_sample_sum_bound(voices: Seq<Oscillator>, lfo_freq: int, lfo_amp: int)
    requires
        forall|j: int| 0 <= j < voices.len() ==> (#[trigger] voices[j]).well_formed(),
    ensures
        -(voices.len() * (GAIN_FACTOR_LIMIT as int)) <= voices_sample_sum(voices, lfo_freq, lfo_amp)
            <= voices.len() * (GAIN_FACTOR_LIMIT as int),
    decreases voices.len(),
{
    if voices.len() > 0 {
        lemma_voices_sample_sum_bound(voices.drop_last(), lfo_freq, lfo_amp);
        voices.last().lemma_sample_fx_bound(lfo_freq, lfo_amp);
    }
}

/// A note built of well-formed slots stays within `NOTE_SAMPLE_LIMIT`.
pub proof fn lemma_slots_sample_sum_bound(slots: Seq<NoteSlot>, lfo_freq: int, lfo_amp: int)
    requires
        slots.len() <= NUM_OSCILLATORS,
        forall|s: int| 0 <= s < slots.len() ==> (#[trigger] slots[s]).well_formed(),
    ensures
        -(slots.len() * (MAX_UNISON as int) * (GAIN_FACTOR_LIMIT as int)) <= slots_sample_sum(
            slots,
            lfo_freq,
            lfo_amp,
        ) <= slots.len() * (MAX_UNISON as int) * (GAIN_FACTOR_LIMIT as int),
        -NOTE_SAMPLE_LIMIT <= slots_sample_sum(slots, lfo_freq, lfo_amp) <= NOTE_SAMPLE_LIMIT,
    decreases slots.len(),
{
    if slots.len() > 0 {
        lemma_slots_sample_sum_bound(slots.drop_last(), lfo_freq, lfo_amp);
        if slots.last().enabled {
            lemma_voices_sample_sum_bound(slots.last().voices@, lfo_freq, lfo_amp);
            assert(slots.last().voices@.len() * (GAIN_FACTOR_LIMIT as int) <= (MAX_UNISON as int)
                * (GAIN_FACTOR_LIMIT as int)) by (nonlinear_arith)
                requires
                    slots.last().voices@.len() <= MAX_UNISON,
            ;
        }
    }
}

/// The prefix of a wider pair layout coincides with the narrower layout:
/// pairs are appended widest-first, so re-tuning a prefix of pairs touches
/// exactly the entries the narrower layout defines.
pub proof fn lemma_pair_cents_prefix_stable(c: int, detune_permille: int, a: nat, b: nat)
    requires
        a <= b,
    ensures
        forall|j: int|
            0 <= j < 2 * a ==> #[trigger] pair_cents(c, detune_permille, b)[j] == pair_cents(
                c,
                detune_permille,
                a,
            )[j],
    decreases b,
{
    lemma_pair_cents_len(c, detune_permille, a);
    lemma_pair_cents_len(c, detune_permille, b);
    if a < b {
        lemma_pair_cents_prefix_stable(c, detune_permille, a, (b - 1) as nat);
        lemma_pair_cents_len(c, detune_permille, (b - 1) as nat);
    }
}

/// Sums one slot's voices and advances each by one tick.
#[verifier::rlimit(60)]
fn sum_slot_voices(voices: &mut Vec<Oscillator>, lfo_freq: u64, lfo_amplitude: u64) -> (total: i64)
    requires
        old(voices)@.len() <= MAX_UNISON,
        forall|j: int| 0 <= j < old(voices)@.len() ==> (#[trigger] old(voices)@[j]).well_formed(),
        lfo_freq < FREQ_LIMIT_MHZ,
        lfo_amplitude <= GAIN_FACTOR_LIMIT,
    ensures
        total == voices_sample_sum(old(voices)@, lfo_freq as int, lfo_amplitude as int),
        -(MAX_UNISON as i64) * (GAIN_FACTOR_LIMIT as i64) <= total <= (MAX_UNISON as i64) * (
        GAIN_FACTOR_LIMIT as i64),
        final(voices)@ == old(voices)@.map_values(|o: Oscillator| o.advanced()),
        forall|j: int| 0 <= j < final(voices)@.len() ==> (#[trigger] final(voices)@[j]).well_formed(),
{
    let mut total: i64 = 0;
    let mut k: usize = 0;
    let len = voices.len();
    proof {
        lemma_voices_sample_sum_bound(old(voices)@, lfo_freq as int, lfo_amplitude as int);
    }
    while k < len
        invariant
            k <= len,
            len == old(voices)@.len() <= MAX_UNISON,
            voices@.len() == len,
            forall|j: int| 0 <= j < len ==> (#[trigger] old(voices)@[j]).well_formed(),
            lfo_freq < FREQ_LIMIT_MHZ,
            lfo_amplitude <= GAIN_FACTOR_LIMIT,
            forall|j: int| 0 <= j < len ==> (#[trigger] voices@[j]).well_formed(),
            forall|j: int| k <= j < len ==> #[trigger] voices@[j] == old(voices)@[j],
            forall|j: int| 0 <= j < k ==> #[trigger] voices@[j] == old(voices)@[j].advanced(),
            total == voices_sample_sum(
                old(voices)@.take(k as int),
                lfo_freq as int,
                lfo_amplitude as int,
            ),
            -(MAX_UNISON as int) * (GAIN_FACTOR_LIMIT as int) <= total <= (MAX_UNISON as int) * (
            GAIN_FACTOR_LIMIT as int),
        decreases len - k,
    {
        proof {
            assert(old(voices)@.take(k + 1).drop_last() =~= old(voices)@.take(k as int));
            lemma_voices_sample_sum_bound(
                old(voices)@.take(k as int),
                lfo_freq as int,
                lfo_amplitude as int,
            );
            assert(forall|j: int|
                0 <= j < k ==> (#[trigger] old(voices)@.take(k as int)[j]).well_formed());
            old(voices)@[k as int].lemma_sample_fx_bound(lfo_freq as int, lfo_amplitude as int);
            assert(old(voices)@.take(k as int).len() == k as int);
            assert((k as int) * (GAIN_FACTOR_LIMIT as int) <= (MAX_UNISON as int - 1) * (
            GAIN_FACTOR_LIMIT as int)) by (nonlinear_arith)
                requires
                    k as int <= MAX_UNISON as int - 1,
            ;
        }
        let sample = voices[k].get_sample(lfo_freq, lfo_amplitude);
        total = total + sample;
        k = k + 1;
    }
    proof {
        assert(old(voices)@.take(len as int) =~= old(voices)@);
        assert(voices@ =~= old(voices)@.map_values(|o: Oscillator| o.advanced()));
    }
    total
}

} // verus!
