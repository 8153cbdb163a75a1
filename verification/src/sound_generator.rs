//! The polyphonic voice pool: held notes, releasing notes, per-slot
//! oscillator configuration, and the per-tick mixing pass.
//!
//! Held notes are keyed by note number (keys unique); releasing notes live
//! in a bounded queue, oldest first, and are dropped once their envelope
//! reaches exactly zero during mixing or once the queue's bound evicts
//! them. A note number pressed while already held replaces the old voice.

use vstd::prelude::*;
use vstd::set_lib::{lemma_int_range, lemma_len_subset, set_int_range};

use crate::constants::{MAX_NOTES, NUM_OSCILLATORS, SoundGenOscParams, TIME_MAX_MICROS};
use crate::envelope::EnvelopeADSR;
use crate::fixed::{amp_scaled, scale_amplitude, AMP_ONE, GAIN_FACTOR_LIMIT};
use crate::note_generator::{
    voices_start_at, voices_tuned, NoteGenerator, NoteOscillatorParams, NOTE_MAX, NOTE_MIN,
    NOTE_SAMPLE_LIMIT,
};
use crate::oscillator::Oscillator;
use crate::pitch::FREQ_LIMIT_MHZ;

verus! {

/// The most notes that can be held at once: one per distinct note number.
pub const HELD_LIMIT: usize = 225;

/// The most the whole pool can contribute to one sample:
/// `(HELD_LIMIT + MAX_NOTES) * NOTE_SAMPLE_LIMIT`.
pub const POOL_SAMPLE_LIMIT: i64 = 1_516_240_896_000_000;

/// Held notes carry pairwise distinct note numbers.
pub open spec fn keys_unique(held: Seq<NoteGenerator>) -> bool {
    forall|i: int, j: int|
        0 <= i < held.len() && 0 <= j < held.len() && i != j ==> held[i].note != held[j].note
}

/// How many held entries carry note number `note`.
pub open spec fn note_count(held: Seq<NoteGenerator>, note: int) -> int
    decreases held.len(),
{
    if held.len() == 0 {
        0
    } else {
        note_count(held.drop_last(), note) + if held.last().note == note {
            1int
        } else {
            0int
        }
    }
}

/// With unique keys, a held note number is held by exactly one voice: this
/// is why pressing a note that is already held can never leave two voices
/// sounding it at double amplitude.
pub proof fn lemma_unique_note_count(held: Seq<NoteGenerator>, note: int, i: int)
    requires
        keys_unique(held),
        0 <= i < held.len(),
        held[i].note == note,
    ensures
        note_count(held, note) == 1,
    decreases held.len(),
{
    if i == held.len() - 1 {
        lemma_absent_note_count(held.drop_last(), note);
    } else {
        lemma_unique_note_count(held.drop_last(), note, i);
    }
}

/// A note number held by nobody is counted zero times.
pub proof fn lemma_absent_note_count(held: Seq<NoteGenerator>, note: int)
    requires
        forall|i: int| 0 <= i < held.len() ==> (#[trigger] held[i]).note != note,
    ensures
        note_count(held, note) == 0,
    decreases held.len(),
{
    if held.len() > 0 {
        lemma_absent_note_count(held.drop_last(), note);
    }
}

/// Unique keys drawn from the note range bound the held collection by the
/// number of distinct note numbers.
pub proof fn lemma_held_len_bound(held: Seq<NoteGenerator>)
    requires
        keys_unique(held),
        forall|i: int| 0 <= i < held.len() ==> NOTE_MIN <= (#[trigger] held[i]).note <= NOTE_MAX,
    ensures
        held.len() <= HELD_LIMIT,
{
    let keys = held.map_values(|g: NoteGenerator| g.note as int);
    assert(keys.no_duplicates());
    keys.unique_seq_to_set();
    let range = set_int_range(NOTE_MIN as int, NOTE_MAX as int + 1);
    assert forall|x: int| keys.to_set().contains(x) implies range.contains(x) by {
        let i = choose|i: int| 0 <= i < keys.len() && keys[i] == x;
    }
    lemma_int_range(NOTE_MIN as int, NOTE_MAX as int + 1);
    lemma_len_subset(keys.to_set(), range);
}

/// The per-note slot parameters a pool configuration induces.
pub open spec fn note_params_of(p: SoundGenOscParams) -> NoteOscillatorParams {
    NoteOscillatorParams {
        enabled: p.enabled,
        wave_type: p.wave_type,
        unisons: p.unisons,
        unison_detune_permille: p.unison_detune_permille,
    }
}

/// `g` is a note freshly built for `note` at time `now` from the pool
/// configuration `gens`: pressed, with one tuned unison cluster per
/// enabled slot, nothing in disabled slots, and every voice starting at
/// phase zero.
pub open spec fn fresh_note(
    g: NoteGenerator,
    note: int,
    gens: Seq<SoundGenOscParams>,
    now: int,
) -> bool {
    &&& g.note == note
    &&& g.trigger_on_time == now
    &&& g.trigger_off_time == 0
    &&& g.note_pressed
    &&& g.slots@.len() == NUM_OSCILLATORS
    &&& forall|s: int|
        0 <= s < NUM_OSCILLATORS ==> (#[trigger] g.slots@[s]).enabled == gens[s].enabled
    &&& forall|s: int|
        0 <= s < NUM_OSCILLATORS && gens[s].enabled ==> voices_tuned(
            (#[trigger] g.slots@[s]).voices@,
            note,
            note_params_of(gens[s]),
        )
    &&& forall|s: int|
        0 <= s < NUM_OSCILLATORS && !gens[s].enabled ==> (#[trigger] g.slots@[s]).voices@.len()
            == 0
    &&& forall|s: int|
        0 <= s < NUM_OSCILLATORS ==> voices_start_at((#[trigger] g.slots@[s]).voices@, 0)
}

/// `n` is `o` one tick later: identity, timestamps and slot layout
/// unchanged, every voice of every enabled slot advanced by one tick, and
/// disabled slots untouched.
pub open spec fn advanced_note(n: NoteGenerator, o: NoteGenerator) -> bool {
    &&& n.note == o.note
    &&& n.trigger_on_time == o.trigger_on_time
    &&& n.trigger_off_time == o.trigger_off_time
    &&& n.note_pressed == o.note_pressed
    &&& n.slots@.len() == o.slots@.len()
    &&& forall|s: int|
        0 <= s < o.slots@.len() && !o.slots@[s].enabled ==> #[trigger] n.slots@[s] == o.slots@[s]
    &&& forall|s: int|
        0 <= s < o.slots@.len() && o.slots@[s].enabled ==> (#[trigger] n.slots@[s]).enabled
            && n.slots@[s].voices@ == o.slots@[s].voices@.map_values(
            |v: Oscillator| v.advanced(),
        )
}

/// One held note's contribution to a sample at time `now`: its raw voice
/// sum scaled by its envelope level.
pub open spec fn note_contribution(
    g: NoteGenerator,
    env: EnvelopeADSR,
    lfo_freq: int,
    lfo_amp: int,
    now: int,
) -> int {
    amp_scaled(
        g.sample_fx(lfo_freq, lfo_amp),
        env.level(now, g.trigger_on_time as int, g.trigger_off_time as int, g.note_pressed),
    )
}

/// The mixed contribution of a sequence of held notes.
pub open spec fn held_mix(
    held: Seq<NoteGenerator>,
    env: EnvelopeADSR,
    lfo_freq: int,
    lfo_amp: int,
    now: int,
) -> int
    decreases held.len(),
{
    if held.len() == 0 {
        0
    } else {
        held_mix(held.drop_last(), env, lfo_freq, lfo_amp, now) + note_contribution(
            held.last(),
            env,
            lfo_freq,
            lfo_amp,
            now,
        )
    }
}

/// The mixed contribution of the releasing notes: a note whose envelope
/// has reached exactly zero contributes nothing (and is about to be
/// retired).
pub open spec fn released_mix(
    rel: Seq<NoteGenerator>,
    env: EnvelopeADSR,
    lfo_freq: int,
    lfo_amp: int,
    now: int,
) -> int
    decreases rel.len(),
{
    if rel.len() == 0 {
        0
    } else {
        let g = rel.last();
        released_mix(rel.drop_last(), env, lfo_freq, lfo_amp, now) + if env.level(
            now,
            g.trigger_on_time as int,
            g.trigger_off_time as int,
            g.note_pressed,
        ) > 0 {
            note_contribution(g, env, lfo_freq, lfo_amp, now)
        } else {
            0
        }
    }
}

/// The releasing notes that stay after one mixing pass at time `now`:
/// those whose envelope level is still nonzero, in order. (The survivors
/// listed here are the notes as they were before the pass; the pool holds
/// them advanced by one tick.)
pub open spec fn released_survivors(rel: Seq<NoteGenerator>, env: EnvelopeADSR, now: int) -> Seq<
    NoteGenerator,
>
    decreases rel.len(),
{
    if rel.len() == 0 {
        Seq::empty()
    } else {
        let g = rel.last();
        let prefix = released_survivors(rel.drop_last(), env, now);
        if env.level(now, g.trigger_on_time as int, g.trigger_off_time as int, g.note_pressed)
            > 0 {
            prefix.push(g)
        } else {
            prefix
        }
    }
}

/// Every survivor of a mixing pass still has a nonzero envelope level, and
/// no notes are invented: the survivors are at most the notes that went in.
pub proof fn lemma_released_survivors_sound(rel: Seq<NoteGenerator>, env: EnvelopeADSR, now: int)
    ensures
        released_survivors(rel, env, now).len() <= rel.len(),
        forall|k: int|
            0 <= k < released_survivors(rel, env, now).len() ==> env.level(
                now,
                (#[trigger] released_survivors(rel, env, now)[k]).trigger_on_time as int,
                released_survivors(rel, env, now)[k].trigger_off_time as int,
                released_survivors(rel, env, now)[k].note_pressed,
            ) > 0,
    decreases rel.len(),
{
    if rel.len() > 0 {
        lemma_released_survivors_sound(rel.drop_last(), env, now);
    }
}

/// The polyphonic voice pool.
pub struct SoundGenerator {
    pub held_notes: Vec<NoteGenerator>,
    pub released_notes: Vec<NoteGenerator>,
    pub generators: Vec<SoundGenOscParams>,
}

impl SoundGenerator {
    /// The state the pool keeps: unique well-formed held notes, a bounded
    /// releasing queue, and one well-formed parameter set per slot, each
    /// slot's parameters carrying its own slot number.
    pub open spec fn well_formed(self) -> bool {
        &&& keys_unique(self.held_notes@)
        &&& forall|i: int|
            0 <= i < self.held_notes@.len() ==> (#[trigger] self.held_notes@[i]).well_formed()
        &&& self.released_notes@.len() <= MAX_NOTES
        &&& forall|i: int|
            0 <= i < self.released_notes@.len() ==> (
            #[trigger] self.released_notes@[i]).well_formed()
        &&& self.generators@.len() == NUM_OSCILLATORS
        &&& forall|i: int|
            0 <= i < self.generators@.len() ==> (#[trigger] self.generators@[i]).well_formed()
        &&& forall|i: int|
            0 <= i < self.generators@.len() ==> (#[trigger] self.generators@[i]).num.index_spec()
                == i
    }

    /// An empty pool with the default slot configuration.
    pub fn new() -> (r: SoundGenerator)
        ensures
            r.well_formed(),
            r.held_notes@.len() == 0,
            r.released_notes@.len() == 0,
            r.generators@.len() == NUM_OSCILLATORS,
            forall|i: int|
                0 <= i < NUM_OSCILLATORS ==> #[trigger] r.generators@[i]
                    == SoundGenOscParams::default_for(r.generators@[i].num),
    {
        let generators = SoundGenOscParams::create_default_array();
        SoundGenerator {
            held_notes: Vec::new(),
            released_notes: Vec::new(),
            generators,
        }
    }

    /// The position of the held note with number `note`, if one is held.
    fn find_held(&self, note: i64) -> (r: Option<usize>)
        ensures
            match r {
                Some(i) => i < self.held_notes@.len() && self.held_notes@[i as int].note == note,
                None => forall|i: int|
                    0 <= i < self.held_notes@.len() ==> (#[trigger] self.held_notes@[i]).note
                        != note,
            },
    {
        let mut i: usize = 0;
        let len = self.held_notes.len();
        while i < len
            invariant
                i <= len,
                len == self.held_notes@.len(),
                forall|j: int| 0 <= j < i ==> (#[trigger] self.held_notes@[j]).note != note,
            decreases len - i,
        {
            if self.held_notes[i].note == note {
                return Some(i);
            }
            i = i + 1;
        }
        None
    }

    /// The per-note parameters of every slot under the current
    /// configuration.
    fn get_note_params(&self) -> (r: Vec<NoteOscillatorParams>)
        requires
            self.well_formed(),
        ensures
            r@.len() == NUM_OSCILLATORS,
            forall|s: int|
                0 <= s < NUM_OSCILLATORS ==> #[trigger] r@[s] == note_params_of(
                    self.generators@[s],
                ),
            forall|s: int| 0 <= s < NUM_OSCILLATORS ==> (#[trigger] r@[s]).well_formed(),
    {
        let mut r: Vec<NoteOscillatorParams> = Vec::new();
        let mut s: usize = 0;
        while s < NUM_OSCILLATORS
            invariant
                s <= NUM_OSCILLATORS,
                self.well_formed(),
                r@.len() == s,
                forall|i: int|
                    0 <= i < s ==> #[trigger] r@[i] == note_params_of(self.generators@[i]),
                forall|i: int| 0 <= i < s ==> (#[trigger] r@[i]).well_formed(),
            decreases NUM_OSCILLATORS - s,
        {
            let p = &self.generators[s];
            r.push(
                NoteOscillatorParams {
                    enabled: p.enabled,
                    wave_type: p.wave_type,
                    unisons: p.unisons,
                    unison_detune_permille: p.unison_detune_permille,
                },
            );
            s = s + 1;
        }
        r
    }

    /// The per-note parameters of one slot under the current configuration.
    fn get_note_params_for_osc(&self, osc_num: usize) -> (r: NoteOscillatorParams)
        requires
            self.well_formed(),
            osc_num < NUM_OSCILLATORS,
        ensures
            r == note_params_of(self.generators@[osc_num as int]),
            r.well_formed(),
    {
        let p = &self.generators[osc_num];
        NoteOscillatorParams {
            enabled: p.enabled,
            wave_type: p.wave_type,
            unisons: p.unisons,
            unison_detune_permille: p.unison_detune_permille,
        }
    }

    /// Presses `note` at time `now`: builds a fresh voice from the current
    /// slot configuration and holds it under that note number. Pressing a
    /// note that is already held replaces its voice (the old voice is
    /// discarded without a release tail); a note number outside the range
    /// the pitch scale covers is ignored.
    pub fn note_pressed(&mut self, note: i64, now: u64)
        requires
            old(self).well_formed(),
            now <= TIME_MAX_MICROS,
        ensures
            final(self).well_formed(),
            final(self).released_notes == old(self).released_notes,
            final(self).generators == old(self).generators,
            !(NOTE_MIN <= note <= NOTE_MAX) ==> final(self).held_notes == old(self).held_notes,
            NOTE_MIN <= note <= NOTE_MAX ==> {
                &&& note_count(final(self).held_notes@, note as int) == 1
                &&& (forall|i: int|
                    0 <= i < old(self).held_notes@.len() && old(self).held_notes@[i].note != note
                        ==> #[trigger] final(self).held_notes@[i] == old(self).held_notes@[i])
                &&& exists|i: int|
                    0 <= i < final(self).held_notes@.len() && fresh_note(
                        #[trigger] final(self).held_notes@[i],
                        note as int,
                        old(self).generators@,
                        now as int,
                    )
                &&& (if exists|i: int|
                    0 <= i < old(self).held_notes@.len() && (#[trigger] old(
                        self,
                    ).held_notes@[i]).note == note {
                    final(self).held_notes@.len() == old(self).held_notes@.len()
                } else {
                    final(self).held_notes@.len() == old(self).held_notes@.len() + 1
                })
            },
    {
        if note < NOTE_MIN || note > NOTE_MAX {
            return ;
        }
        let params = self.get_note_params();
        let note_gen = NoteGenerator::new(note, &params, now);
        match self.find_held(note) {
            Some(i) => {
                let ghost prev = self.held_notes@;
                let _replaced = self.held_notes.remove(i);
                self.held_notes.insert(i, note_gen);
                proof {
                    assert(self.held_notes@ =~= prev.update(i as int, self.held_notes@[i as int]));
                    lemma_unique_note_count(self.held_notes@, note as int, i as int);
                }
            },
            None => {
                self.held_notes.push(note_gen);
                proof {
                    lemma_unique_note_count(
                        self.held_notes@,
                        note as int,
                        self.held_notes@.len() - 1,
                    );
                }
            },
        }
    }

    /// Releases `note` at time `now`: if it is held, its voice is stamped
    /// released and moved to the releasing queue, evicting the oldest
    /// releasing voice if the queue is full; if it is not held, nothing
    /// changes.
    pub fn note_released(&mut self, note: i64, now: u64)
        requires
            old(self).well_formed(),
            now <= TIME_MAX_MICROS,
        ensures
            final(self).well_formed(),
            final(self).generators == old(self).generators,
            (forall|i: int|
                0 <= i < old(self).held_notes@.len() ==> (#[trigger] old(
                    self,
                ).held_notes@[i]).note != note) ==> *final(self) == *old(self),
            forall|i: int|
                0 <= i < final(self).held_notes@.len() ==> (
                #[trigger] final(self).held_notes@[i]).note != note,
            (exists|i: int|
                0 <= i < old(self).held_notes@.len() && (#[trigger] old(self).held_notes@[i]).note
                    == note) ==> {
                    let removed = old(self).held_notes@[choose|i: int|
                        0 <= i < old(self).held_notes@.len() && old(self).held_notes@[i].note
                            == note];
                    let marked = (NoteGenerator {
                        trigger_off_time: now,
                        note_pressed: false,
                        ..removed
                    });
                    let rel_new = final(self).released_notes@;
                    let rel_old = old(self).released_notes@;
                    &&& final(self).held_notes@.len() == old(self).held_notes@.len() - 1
                    &&& (rel_old.len() < MAX_NOTES ==> rel_new == rel_old.push(marked))
                    &&& (rel_old.len() >= MAX_NOTES ==> rel_new == rel_old.subrange(
                        1,
                        rel_old.len() as int,
                    ).push(marked))
                },
    {
        match self.find_held(note) {
            Some(i) => {
                let mut removed = self.held_notes.remove(i);
                removed.note_released(now);
                if self.released_notes.len() >= MAX_NOTES {
                    self.released_notes.remove(0);
                }
                self.released_notes.push(removed);
                proof {
                    assert(forall|a: int, b: int|
                        0 <= a < self.held_notes@.len() && 0 <= b < self.held_notes@.len() && a != b
                            ==> self.held_notes@[a].note != self.held_notes@[b].note);
                }
            },
            None => {},
        }
    }

    /// Stores a new configuration for the slot the parameters name, and
    /// propagates it to the matching slot of every held and releasing
    /// note: enabled slots are re-tuned (preserving phase), disabled slots
    /// are muted but keep their voices.
    pub fn update_oscillator_params(&mut self, osc_params: SoundGenOscParams)
        requires
            old(self).well_formed(),
            osc_params.well_formed(),
        ensures
            final(self).well_formed(),
            final(self).generators@ == old(self).generators@.update(
                osc_params.num.index_spec(),
                osc_params,
            ),
            final(self).held_notes@.len() == old(self).held_notes@.len(),
            final(self).released_notes@.len() == old(self).released_notes@.len(),
            forall|i: int|
                0 <= i < old(self).held_notes@.len() ==> slot_updated(
                    #[trigger] final(self).held_notes@[i],
                    old(self).held_notes@[i],
                    osc_params.num.index_spec(),
                    note_params_of(osc_params),
                ),
            forall|i: int|
                0 <= i < old(self).released_notes@.len() ==> slot_updated(
                    #[trigger] final(self).released_notes@[i],
                    old(self).released_notes@[i],
                    osc_params.num.index_spec(),
                    note_params_of(osc_params),
                ),
    {
        let idx = osc_params.num.index();
        self.generators[idx] = osc_params;
        self.update_note_params(idx);
    }

    /// Propagates the current configuration of slot `osc_num` to every
    /// held and releasing note.
    fn update_note_params(&mut self, osc_num: usize)
        requires
            old(self).well_formed(),
            osc_num < NUM_OSCILLATORS,
        ensures
            final(self).well_formed(),
            final(self).generators == old(self).generators,
            final(self).held_notes@.len() == old(self).held_notes@.len(),
            final(self).released_notes@.len() == old(self).released_notes@.len(),
            forall|i: int|
                0 <= i < old(self).held_notes@.len() ==> slot_updated(
                    #[trigger] final(self).held_notes@[i],
                    old(self).held_notes@[i],
                    osc_num as int,
                    note_params_of(old(self).generators@[osc_num as int]),
                ),
            forall|i: int|
                0 <= i < old(self).released_notes@.len() ==> slot_updated(
                    #[trigger] final(self).released_notes@[i],
                    old(self).released_notes@[i],
                    osc_num as int,
                    note_params_of(old(self).generators@[osc_num as int]),
                ),
    {
        let param = self.get_note_params_for_osc(osc_num);
        let hlen = self.held_notes.len();
        let mut i: usize = 0;
        while i < hlen
            invariant
                old(self).well_formed(),
                i <= hlen,
                hlen == old(self).held_notes@.len(),
                osc_num < NUM_OSCILLATORS,
                param == note_params_of(old(self).generators@[osc_num as int]),
                param.well_formed(),
                self.generators == old(self).generators,
                self.released_notes == old(self).released_notes,
                self.held_notes@.len() == hlen,
                forall|j: int|
                    i <= j < hlen ==> #[trigger] self.held_notes@[j] == old(self).held_notes@[j],
                forall|j: int|
                    0 <= j < i ==> slot_updated(
                        #[trigger] self.held_notes@[j],
                        old(self).held_notes@[j],
                        osc_num as int,
                        param,
                    ),
                forall|j: int|
                    0 <= j < hlen ==> (#[trigger] self.held_notes@[j]).well_formed(),
                forall|j: int|
                    0 <= j < hlen ==> (#[trigger] self.held_notes@[j]).note == old(
                        self,
                    ).held_notes@[j].note,
            decreases hlen - i,
        {
            let ghost prev = self.held_notes@;
            let mut g = self.held_notes.remove(i);
            g.set_note_params(osc_num, &param);
            self.held_notes.insert(i, g);
            proof {
                assert(self.held_notes@ =~= prev.update(i as int, self.held_notes@[i as int]));
            }
            i = i + 1;
        }
        let rlen = self.released_notes.len();
        let mut k: usize = 0;
        while k < rlen
            invariant
                old(self).well_formed(),
                k <= rlen,
                rlen == old(self).released_notes@.len(),
                osc_num < NUM_OSCILLATORS,
                param == note_params_of(old(self).generators@[osc_num as int]),
                param.well_formed(),
                self.generators == old(self).generators,
                self.released_notes@.len() == rlen,
                self.held_notes@.len() == old(self).held_notes@.len(),
                keys_unique(self.held_notes@),
                forall|j: int|
                    0 <= j < self.held_notes@.len() ==> (
                    #[trigger] self.held_notes@[j]).well_formed(),
                forall|j: int|
                    0 <= j < old(self).held_notes@.len() ==> slot_updated(
                        #[trigger] self.held_notes@[j],
                        old(self).held_notes@[j],
                        osc_num as int,
                        param,
                    ),
                forall|j: int|
                    k <= j < rlen ==> #[trigger] self.released_notes@[j] == old(
                        self,
                    ).released_notes@[j],
                forall|j: int|
                    0 <= j < k ==> slot_updated(
                        #[trigger] self.released_notes@[j],
                        old(self).released_notes@[j],
                        osc_num as int,
                        param,
                    ),
                forall|j: int|
                    0 <= j < rlen ==> (#[trigger] self.released_notes@[j]).well_formed(),
            decreases rlen - k,
        {
            let ghost prev = self.released_notes@;
            let mut g = self.released_notes.remove(k);
            g.set_note_params(osc_num, &param);
            self.released_notes.insert(k, g);
            proof {
                assert(self.released_notes@ =~= prev.update(
                    k as int,
                    self.released_notes@[k as int],
                ));
            }
            k = k + 1;
        }
    }

    /// Mixes one sample at time `now`: every held note and every still
    /// audible releasing note contributes its raw voice sum scaled by the
    /// shared envelope, and every releasing note whose envelope has
    /// reached exactly zero is retired. All sounding voices advance by one
    /// tick. A silent pool yields exactly zero.
    pub fn get_sample(
        &mut self,
        envelope: &EnvelopeADSR,
        lfo: Option<&Oscillator>,
        now: u64,
    ) -> (total: i64)
        requires
            old(self).well_formed(),
            envelope.well_formed(),
            now <= TIME_MAX_MICROS,
            match lfo {
                Some(o) => o.well_formed(),
                None => true,
            },
        ensures
            final(self).well_formed(),
            final(self).generators == old(self).generators,
            total == held_mix(
                old(self).held_notes@,
                *envelope,
                lfo_frequency_of(lfo),
                lfo_amplitude_of(lfo),
                now as int,
            ) + released_mix(
                old(self).released_notes@,
                *envelope,
                lfo_frequency_of(lfo),
                lfo_amplitude_of(lfo),
                now as int,
            ),
            -POOL_SAMPLE_LIMIT <= total <= POOL_SAMPLE_LIMIT,
            old(self).held_notes@.len() == 0 && old(self).released_notes@.len() == 0 ==> total
                == 0,
            final(self).held_notes@.len() == old(self).held_notes@.len(),
            forall|i: int|
                0 <= i < old(self).held_notes@.len() ==> advanced_note(
                    #[trigger] final(self).held_notes@[i],
                    old(self).held_notes@[i],
                ),
            final(self).released_notes@.len() == released_survivors(
                old(self).released_notes@,
                *envelope,
                now as int,
            ).len(),
            forall|k: int|
                0 <= k < final(self).released_notes@.len() ==> advanced_note(
                    #[trigger] final(self).released_notes@[k],
                    released_survivors(old(self).released_notes@, *envelope, now as int)[k],
                ),
    {
        let mut lfo_freq: u64 = 0;
        let mut lfo_amplitude: u64 = 0;
        match lfo {
            Some(lfo_osc) => {
                lfo_freq = lfo_osc.get_frequency();
                lfo_amplitude = lfo_osc.get_amplitude();
            },
            None => {},
        }
        let mut total: i64 = 0;
        proof {
            lemma_held_len_bound(old(self).held_notes@);
        }
        let hlen = self.held_notes.len();
        let mut i: usize = 0;
        while i < hlen
            invariant
                old(self).well_formed(),
                envelope.well_formed(),
                now <= TIME_MAX_MICROS,
                lfo_freq < FREQ_LIMIT_MHZ,
                lfo_amplitude <= GAIN_FACTOR_LIMIT,
                lfo_freq == lfo_frequency_of(lfo),
                lfo_amplitude == lfo_amplitude_of(lfo),
                i <= hlen,
                hlen == old(self).held_notes@.len() <= HELD_LIMIT,
                self.held_notes@.len() == hlen,
                self.released_notes == old(self).released_notes,
                self.generators == old(self).generators,
                forall|j: int|
                    i <= j < hlen ==> #[trigger] self.held_notes@[j] == old(self).held_notes@[j],
                forall|j: int|
                    0 <= j < i ==> advanced_note(
                        #[trigger] self.held_notes@[j],
                        old(self).held_notes@[j],
                    ),
                forall|j: int|
                    0 <= j < hlen ==> (#[trigger] self.held_notes@[j]).well_formed(),
                forall|j: int|
                    0 <= j < hlen ==> (#[trigger] self.held_notes@[j]).note == old(
                        self,
                    ).held_notes@[j].note,
                keys_unique(self.held_notes@),
                total == held_mix(
                    old(self).held_notes@.take(i as int),
                    *envelope,
                    lfo_freq as int,
                    lfo_amplitude as int,
                    now as int,
                ),
                -(HELD_LIMIT as int) * (NOTE_SAMPLE_LIMIT as int) <= total as int <= (HELD_LIMIT
                    as int) * (NOTE_SAMPLE_LIMIT as int),
            decreases hlen - i,
        {
            proof {
                assert(old(self).held_notes@.take(i + 1).drop_last() =~= old(
                    self,
                ).held_notes@.take(i as int));
                lemma_held_mix_bound(
                    old(self).held_notes@.take(i as int),
                    *envelope,
                    lfo_freq as int,
                    lfo_amplitude as int,
                    now as int,
                );
                lemma_note_contribution_bound(
                    old(self).held_notes@[i as int],
                    *envelope,
                    lfo_freq as int,
                    lfo_amplitude as int,
                    now as int,
                );
                assert((i as int) * (NOTE_SAMPLE_LIMIT as int) <= (HELD_LIMIT as int - 1) * (
                NOTE_SAMPLE_LIMIT as int)) by (nonlinear_arith)
                    requires
                        i as int <= HELD_LIMIT as int - 1,
                ;
            }
            let ghost prev = self.held_notes@;
            let mut g = self.held_notes.remove(i);
            let amp = envelope.get_amplitude(
                now,
                g.trigger_on_time,
                g.trigger_off_time,
                g.note_pressed,
            );
            let value = g.get_sample(lfo_freq, lfo_amplitude);
            self.held_notes.insert(i, g);
            proof {
                assert(self.held_notes@ =~= prev.update(i as int, self.held_notes@[i as int]));
                assert((value as int) * (amp as int) <= (NOTE_SAMPLE_LIMIT as int) * (AMP_ONE
                    as int) && (-(value as int)) * (amp as int) <= (NOTE_SAMPLE_LIMIT as int) * (
                AMP_ONE as int)) by (nonlinear_arith)
                    requires
                        -(NOTE_SAMPLE_LIMIT as int) <= value as int <= NOTE_SAMPLE_LIMIT as int,
                        0 <= amp as int <= AMP_ONE as int,
                ;
            }
            let contribution = scale_amplitude(value, amp);
            total = total + contribution;
            i = i + 1;
        }
        proof {
            assert(old(self).held_notes@.take(hlen as int) =~= old(self).held_notes@);
        }
        let rlen = self.released_notes.len();
        let ghost orig_rel = self.released_notes@;
        let mut survivors: Vec<NoteGenerator> = Vec::new();
        let mut k: usize = 0;
        while k < rlen
            invariant
                old(self).well_formed(),
                envelope.well_formed(),
                now <= TIME_MAX_MICROS,
                lfo_freq < FREQ_LIMIT_MHZ,
                lfo_amplitude <= GAIN_FACTOR_LIMIT,
                lfo_freq == lfo_frequency_of(lfo),
                lfo_amplitude == lfo_amplitude_of(lfo),
                k <= rlen,
                rlen == orig_rel.len() <= MAX_NOTES,
                orig_rel == old(self).released_notes@,
                self.released_notes@ =~= orig_rel.skip(k as int),
                self.generators == old(self).generators,
                self.held_notes@.len() == old(self).held_notes@.len(),
                keys_unique(self.held_notes@),
                forall|j: int|
                    0 <= j < self.held_notes@.len() ==> (
                    #[trigger] self.held_notes@[j]).well_formed(),
                forall|j: int|
                    0 <= j < old(self).held_notes@.len() ==> advanced_note(
                        #[trigger] self.held_notes@[j],
                        old(self).held_notes@[j],
                    ),
                forall|j: int| 0 <= j < rlen ==> (#[trigger] orig_rel[j]).well_formed(),
                survivors@.len() == released_survivors(
                    orig_rel.take(k as int),
                    *envelope,
                    now as int,
                ).len(),
                survivors@.len() <= k,
                forall|m: int|
                    0 <= m < survivors@.len() ==> advanced_note(
                        #[trigger] survivors@[m],
                        released_survivors(orig_rel.take(k as int), *envelope, now as int)[m],
                    ),
                forall|m: int|
                    0 <= m < survivors@.len() ==> (#[trigger] survivors@[m]).well_formed(),
                total == held_mix(
                    old(self).held_notes@,
                    *envelope,
                    lfo_freq as int,
                    lfo_amplitude as int,
                    now as int,
                ) + released_mix(
                    orig_rel.take(k as int),
                    *envelope,
                    lfo_freq as int,
                    lfo_amplitude as int,
                    now as int,
                ),
                -((HELD_LIMIT as int) * (NOTE_SAMPLE_LIMIT as int)) - (k as int) * (
                NOTE_SAMPLE_LIMIT as int) <= total as int,
                total as int <= (HELD_LIMIT as int) * (NOTE_SAMPLE_LIMIT as int) + (k as int) * (
                NOTE_SAMPLE_LIMIT as int),
            decreases rlen - k,
        {
            proof {
                assert(orig_rel.take(k + 1).drop_last() =~= orig_rel.take(k as int));
                assert(orig_rel.skip(k as int)[0] == orig_rel[k as int]);
                lemma_note_contribution_bound(
                    orig_rel[k as int],
                    *envelope,
                    lfo_freq as int,
                    lfo_amplitude as int,
                    now as int,
                );
                assert((k as int) * (NOTE_SAMPLE_LIMIT as int) <= (MAX_NOTES as int - 1) * (
                NOTE_SAMPLE_LIMIT as int)) by (nonlinear_arith)
                    requires
                        k as int <= MAX_NOTES as int - 1,
                ;
            }
            let ghost prev_rel = self.released_notes@;
            let mut g = self.released_notes.remove(0);
            proof {
                assert(self.released_notes@ =~= orig_rel.skip(k + 1));
            }
            let amp = envelope.get_amplitude(
                now,
                g.trigger_on_time,
                g.trigger_off_time,
                g.note_pressed,
            );
            if amp > 0 {
                let value = g.get_sample(lfo_freq, lfo_amplitude);
                proof {
                    assert((value as int) * (amp as int) <= (NOTE_SAMPLE_LIMIT as int) * (AMP_ONE
                        as int) && (-(value as int)) * (amp as int) <= (NOTE_SAMPLE_LIMIT as int)
                        * (AMP_ONE as int)) by (nonlinear_arith)
                        requires
                            -(NOTE_SAMPLE_LIMIT as int) <= value as int <= NOTE_SAMPLE_LIMIT as int,
                            0 <= amp as int <= AMP_ONE as int,
                    ;
                }
                let contribution = scale_amplitude(value, amp);
                total = total + contribution;
                survivors.push(g);
            }
            k = k + 1;
        }
        proof {
            assert(orig_rel.take(rlen as int) =~= orig_rel);
        }
        self.released_notes = survivors;
        total
    }
}

/// The frequency, in milli-hertz, the low-frequency modulator runs at: zero
/// when there is none.
pub open spec fn lfo_frequency_of(lfo: Option<&Oscillator>) -> int {
    match lfo {
        Some(o) => o.frequency as int,
        None => 0,
    }
}

/// The amplitude factor of the low-frequency modulator: zero when there is
/// none.
pub open spec fn lfo_amplitude_of(lfo: Option<&Oscillator>) -> int {
    match lfo {
        Some(o) => o.amplitude as int,
        None => 0,
    }
}

/// `n` is `o` with one slot's parameters applied: identity, timestamps and
/// the other slots unchanged; the named slot carries the new enabled flag,
/// re-tuned voices if enabled, and its untouched voices if disabled.
pub open spec fn slot_updated(
    n: NoteGenerator,
    o: NoteGenerator,
    osc_num: int,
    p: NoteOscillatorParams,
) -> bool {
    &&& n.note == o.note
    &&& n.trigger_on_time == o.trigger_on_time
    &&& n.trigger_off_time == o.trigger_off_time
    &&& n.note_pressed == o.note_pressed
    &&& n.slots@.len() == NUM_OSCILLATORS
    &&& forall|s: int|
        0 <= s < NUM_OSCILLATORS && s != osc_num ==> #[trigger] n.slots@[s] == o.slots@[s]
    &&& n.slots@[osc_num].enabled == p.enabled
    &&& (!p.enabled ==> n.slots@[osc_num].voices == o.slots@[osc_num].voices)
    &&& (p.enabled ==> voices_tuned(n.slots@[osc_num].voices@, n.note as int, p))
    &&& ({
        let old_voices = o.slots@[osc_num].voices@;
        let new_voices = n.slots@[osc_num].voices@;
        let inherited: int = if old_voices.len() > 0 {
            old_voices[0].sample_index as int
        } else {
            0
        };
        &&& (p.enabled && p.unisons != old_voices.len() ==> voices_start_at(
            new_voices,
            inherited,
        ))
        &&& (p.enabled && p.unisons == old_voices.len() ==> forall|j: int|
            0 <= j < new_voices.len() ==> (#[trigger] new_voices[j]).sample_index
                == old_voices[j].sample_index)
    })
}

/// One note's enveloped contribution stays within `NOTE_SAMPLE_LIMIT`.
pub proof fn lemma_note_contribution_bound(
    g: NoteGenerator,
    env: EnvelopeADSR,
    lfo_freq: int,
    lfo_amp: int,
    now: int,
)
    requires
        g.well_formed(),
        env.well_formed(),
    ensures
        -(NOTE_SAMPLE_LIMIT as int) <= note_contribution(g, env, lfo_freq, lfo_amp, now)
            <= NOTE_SAMPLE_LIMIT as int,
{
    crate::note_generator::lemma_slots_sample_sum_bound(g.slots@, lfo_freq, lfo_amp);
    env.lemma_level_bounds(
        now,
        g.trigger_on_time as int,
        g.trigger_off_time as int,
        g.note_pressed,
    );
    crate::fixed::lemma_amp_scaled_bound(
        g.sample_fx(lfo_freq, lfo_amp),
        env.level(now, g.trigger_on_time as int, g.trigger_off_time as int, g.note_pressed),
        NOTE_SAMPLE_LIMIT as int,
        AMP_ONE as int,
    );
    vstd::arithmetic::div_mod::lemma_div_multiples_vanish(NOTE_SAMPLE_LIMIT as int, AMP_ONE as int);
}

/// A sequence of well-formed held notes mixes to at most one contribution
/// limit per note.
pub proof fn lemma_held_mix_bound(
    held: Seq<NoteGenerator>,
    env: EnvelopeADSR,
    lfo_freq: int,
    lfo_amp: int,
    now: int,
)
    requires
        env.well_formed(),
        forall|i: int| 0 <= i < held.len() ==> (#[trigger] held[i]).well_formed(),
    ensures
        -(held.len() * (NOTE_SAMPLE_LIMIT as int)) <= held_mix(held, env, lfo_freq, lfo_amp, now)
            <= held.len() * (NOTE_SAMPLE_LIMIT as int),
    decreases held.len(),
{
    if held.len() > 0 {
        lemma_held_mix_bound(held.drop_last(), env, lfo_freq, lfo_amp, now);
        lemma_note_contribution_bound(held.last(), env, lfo_freq, lfo_amp, now);
    }
}

} // verus!
