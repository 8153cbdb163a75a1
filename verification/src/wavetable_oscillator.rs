//! The wavetable oscillator: a voice that walks a precomputed waveform
//! table with a fixed-point index and linearly interpolates between
//! neighbouring entries.
//!
//! The index is a 32-bit binary fraction of a table slot: the upper bits
//! select an entry, the lower bits weight the interpolation between that
//! entry and the next (wrapping around the table). Each tick advances the
//! index by `frequency * table_size / sample_rate` slots.

use vstd::arithmetic::div_mod::{lemma_div_is_ordered, lemma_div_multiples_vanish};
use vstd::prelude::*;

use crate::fixed::{
    amp_of_db, amp_scaled, gain_to_amplitude, lemma_amp_scaled_bound, scale_amplitude, AMP_ONE,
    GAIN_DB_MAX, GAIN_DB_MIN, GAIN_FACTOR_LIMIT, PHASE_ONE,
};
use crate::pitch::FREQ_LIMIT_MHZ;
use crate::wavetable::{WaveTable, MAX_TABLE_SIZE};

verus! {

/// Upper bound on the per-tick index increment, in fixed-point slots.
pub const INC_LIMIT: u64 = 0x400_0000_0000_0000;

/// The lowest sample rate the wavetable oscillator accepts.
pub const MIN_SAMPLE_RATE: u32 = 8000;

/// The highest sample rate the wavetable oscillator accepts.
pub const MAX_SAMPLE_RATE: u32 = 192_000;

/// Linear interpolation between neighbouring table entries `a` and `b` with
/// fractional weight `w / PHASE_ONE`, exact in integer arithmetic. The
/// values are shifted up by one amplitude unit before the division so that
/// the floor is taken on a non-negative quantity, keeping the result
/// symmetric around zero.
pub open spec fn lerp_fx(a: int, b: int, w: int) -> int {
    ((a + AMP_ONE as int) * ((PHASE_ONE as int) - w) + (b + AMP_ONE as int) * w) / (
    PHASE_ONE as int) - AMP_ONE as int
}

/// Interpolation never leaves the band its two endpoints lie in.
pub proof fn lemma_lerp_fx_bounds(a: int, b: int, w: int)
    requires
        -(AMP_ONE as int) <= a <= AMP_ONE as int,
        -(AMP_ONE as int) <= b <= AMP_ONE as int,
        0 <= w < PHASE_ONE as int,
    ensures
        -(AMP_ONE as int) <= lerp_fx(a, b, w) <= AMP_ONE as int,
{
    let num = (a + AMP_ONE as int) * ((PHASE_ONE as int) - w) + (b + AMP_ONE as int) * w;
    assert(0 <= num <= 2 * (AMP_ONE as int) * (PHASE_ONE as int)) by (nonlinear_arith)
        requires
            0 <= a + AMP_ONE as int <= 2 * (AMP_ONE as int),
            0 <= b + AMP_ONE as int <= 2 * (AMP_ONE as int),
            0 <= w < PHASE_ONE as int,
            num == (a + AMP_ONE as int) * ((PHASE_ONE as int) - w) + (b + AMP_ONE as int) * w,
    ;
    vstd::arithmetic::div_mod::lemma_div_pos_is_pos(num, PHASE_ONE as int);
    lemma_div_is_ordered(num, 2 * (AMP_ONE as int) * (PHASE_ONE as int), PHASE_ONE as int);
    lemma_div_multiples_vanish(2 * (AMP_ONE as int), PHASE_ONE as int);
}

/// Sampling a table at an index with zero fractional weight returns the
/// entry itself: interpolation adds nothing at exact table positions.
pub proof fn lemma_lerp_exact_index(a: int, b: int)
    requires
        -(AMP_ONE as int) <= a <= AMP_ONE as int,
        -(AMP_ONE as int) <= b <= AMP_ONE as int,
    ensures
        lerp_fx(a, b, 0) == a,
{
    lemma_div_multiples_vanish(a + AMP_ONE as int, PHASE_ONE as int);
}

/// The interpolated value of `table` at fixed-point index `index_fp`.
pub open spec fn table_sample_fx(table: WaveTable, index_fp: int) -> int {
    let ti = index_fp / (PHASE_ONE as int);
    let w = index_fp % (PHASE_ONE as int);
    let next = (ti + 1) % (table.wave_table_size as int);
    lerp_fx(table.wave_table@[ti] as int, table.wave_table@[next] as int, w)
}

/// One voice that reads a shared wavetable instead of evaluating its
/// waveform in closed form.
pub struct WavetableOscillator {
    pub sample_rate: u32,
    pub table_size: usize,
    /// Fixed-point position in the table: `PHASE_ONE` units per table slot,
    /// always below `table_size * PHASE_ONE`.
    pub index_fp: u64,
    /// Fixed-point index advance per tick.
    pub index_increment_fp: u64,
    pub gain_db: i64,
    pub amplitude: u64,
}

impl WavetableOscillator {
    /// The state every wavetable voice keeps.
    pub open spec fn well_formed(self) -> bool {
        &&& MIN_SAMPLE_RATE <= self.sample_rate <= MAX_SAMPLE_RATE
        &&& 1 <= self.table_size <= MAX_TABLE_SIZE
        &&& self.index_fp < (self.table_size as u64) * PHASE_ONE
        &&& self.index_increment_fp <= INC_LIMIT
        &&& GAIN_DB_MIN <= self.gain_db <= GAIN_DB_MAX
        &&& self.amplitude == amp_of_db(self.gain_db as int)
        &&& self.amplitude <= GAIN_FACTOR_LIMIT
    }

    /// The sample this voice yields at its current state: the interpolated
    /// table value at its index, scaled by the amplitude factor.
    pub open spec fn sample_fx(self, table: WaveTable) -> int {
        amp_scaled(table_sample_fx(table, self.index_fp as int), self.amplitude as int)
    }

    /// A fresh voice at the start of the given table, at rest (zero
    /// increment) and gain 0 dB.
    pub fn new(sample_rate: u32, table: &WaveTable) -> (r: WavetableOscillator)
        requires
            MIN_SAMPLE_RATE <= sample_rate <= MAX_SAMPLE_RATE,
            table.well_formed(),
        ensures
            r.well_formed(),
            r.sample_rate == sample_rate,
            r.table_size == table.wave_table_size,
            r.index_fp == 0,
            r.index_increment_fp == 0,
            r.gain_db == 0,
            r.amplitude == amp_of_db(0),
    {
        let amplitude = gain_to_amplitude(0);
        proof {
            assert((table.wave_table_size as int) * (PHASE_ONE as int) >= PHASE_ONE as int) by (
            nonlinear_arith)
                requires
                    table.wave_table_size >= 1,
            ;
        }
        WavetableOscillator {
            sample_rate,
            table_size: table.wave_table_size,
            index_fp: 0,
            index_increment_fp: 0,
            gain_db: 0,
            amplitude,
        }
    }

    /// Sets the frequency, in milli-hertz, by recomputing the per-tick
    /// index increment: `frequency * table_size / sample_rate` slots, in
    /// fixed point. The index itself is untouched, preserving phase.
    pub fn set_frequency(&mut self, frequency: u64)
        requires
            old(self).well_formed(),
            frequency < FREQ_LIMIT_MHZ,
        ensures
            final(self).well_formed(),
            final(self).index_increment_fp == ((frequency as int) * (old(self).table_size as int)
                * (PHASE_ONE as int)) / (1000 * (old(self).sample_rate as int)),
            final(self).sample_rate == old(self).sample_rate,
            final(self).table_size == old(self).table_size,
            final(self).index_fp == old(self).index_fp,
            final(self).gain_db == old(self).gain_db,
            final(self).amplitude == old(self).amplitude,
    {
        proof {
            assert(0 <= (frequency as int) * (self.table_size as int) * (PHASE_ONE as int) <= (
            FREQ_LIMIT_MHZ as int) * (MAX_TABLE_SIZE as int) * (PHASE_ONE as int)) by (
            nonlinear_arith)
                requires
                    0 <= (frequency as int) < (FREQ_LIMIT_MHZ as int),
                    1 <= (self.table_size as int) <= (MAX_TABLE_SIZE as int),
            ;
        }
        let num: u128 = (frequency as u128) * (self.table_size as u128) * (PHASE_ONE as u128);
        let den: u128 = 1000 * (self.sample_rate as u128);
        proof {
            lemma_div_is_ordered(
                (frequency as int) * (self.table_size as int) * (PHASE_ONE as int),
                (FREQ_LIMIT_MHZ as int) * (MAX_TABLE_SIZE as int) * (PHASE_ONE as int),
                den as int,
            );
            vstd::arithmetic::div_mod::lemma_div_is_ordered_by_denominator(
                (FREQ_LIMIT_MHZ as int) * (MAX_TABLE_SIZE as int) * (PHASE_ONE as int),
                1000 * (MIN_SAMPLE_RATE as int),
                den as int,
            );
        }
        self.index_increment_fp = (num / den) as u64;
    }

    /// Sets the gain, in whole decibels, saturating into
    /// `[GAIN_DB_MIN, GAIN_DB_MAX]`, and recomputes the amplitude factor.
    pub fn set_gain(&mut self, gain_db: i64)
        requires
            old(self).well_formed(),
        ensures
            final(self).well_formed(),
            final(self).gain_db == if gain_db < GAIN_DB_MIN {
                GAIN_DB_MIN as int
            } else if gain_db > GAIN_DB_MAX {
                GAIN_DB_MAX as int
            } else {
                gain_db as int
            },
            final(self).amplitude == amp_of_db(final(self).gain_db as int),
            final(self).sample_rate == old(self).sample_rate,
            final(self).table_size == old(self).table_size,
            final(self).index_fp == old(self).index_fp,
            final(self).index_increment_fp == old(self).index_increment_fp,
    {
        let clamped: i64 = if gain_db < GAIN_DB_MIN {
            GAIN_DB_MIN
        } else if gain_db > GAIN_DB_MAX {
            GAIN_DB_MAX
        } else {
            gain_db
        };
        self.gain_db = clamped;
        self.amplitude = gain_to_amplitude(clamped);
    }

    /// Points the voice at a (possibly different) table, wrapping the index
    /// into the new table's range so the walk stays in bounds.
    pub fn set_wave_table(&mut self, table: &WaveTable)
        requires
            old(self).well_formed(),
            table.well_formed(),
        ensures
            final(self).well_formed(),
            final(self).table_size == table.wave_table_size,
            final(self).index_fp == (old(self).index_fp as int) % ((table.wave_table_size as int)
                * (PHASE_ONE as int)),
            final(self).sample_rate == old(self).sample_rate,
            final(self).index_increment_fp == old(self).index_increment_fp,
            final(self).gain_db == old(self).gain_db,
            final(self).amplitude == old(self).amplitude,
    {
        proof {
            assert((table.wave_table_size as int) * (PHASE_ONE as int) > 0) by (nonlinear_arith)
                requires
                    table.wave_table_size >= 1,
            ;
        }
        self.table_size = table.wave_table_size;
        self.index_fp = self.index_fp % ((self.table_size as u64) * PHASE_ONE);
    }

    /// Computes `sample_fx` at the current state and advances the index by
    /// one increment, wrapping around the table.
    pub fn get_sample(&mut self, table: &WaveTable) -> (sample: i64)
        requires
            old(self).well_formed(),
            table.well_formed(),
            table.wave_table_size == old(self).table_size,
        ensures
            final(self).well_formed(),
            sample == old(self).sample_fx(*table),
            -(GAIN_FACTOR_LIMIT as i64) <= sample <= GAIN_FACTOR_LIMIT as i64,
            final(self).index_fp == ((old(self).index_fp + old(self).index_increment_fp) as int)
                % ((old(self).table_size as int) * (PHASE_ONE as int)),
            final(self).sample_rate == old(self).sample_rate,
            final(self).table_size == old(self).table_size,
            final(self).index_increment_fp == old(self).index_increment_fp,
            final(self).gain_db == old(self).gain_db,
            final(self).amplitude == old(self).amplitude,
    {
        let value = self.lerp(table);
        proof {
            assert((value as int) * (self.amplitude as int) <= (AMP_ONE as int) * (
            GAIN_FACTOR_LIMIT as int) && (-(value as int)) * (self.amplitude as int) <= (AMP_ONE
                as int) * (GAIN_FACTOR_LIMIT as int)) by (nonlinear_arith)
                requires
                    -(AMP_ONE as int) <= (value as int) <= (AMP_ONE as int),
                    0 <= (self.amplitude as int) <= (GAIN_FACTOR_LIMIT as int),
            ;
            lemma_amp_scaled_bound(
                value as int,
                self.amplitude as int,
                AMP_ONE as int,
                GAIN_FACTOR_LIMIT as int,
            );
            lemma_div_multiples_vanish(GAIN_FACTOR_LIMIT as int, AMP_ONE as int);
            assert((self.table_size as int) * (PHASE_ONE as int) > 0) by (nonlinear_arith)
                requires
                    self.table_size >= 1,
            ;
            assert((self.table_size as int) * (PHASE_ONE as int) <= (MAX_TABLE_SIZE as int) * (
            PHASE_ONE as int)) by (nonlinear_arith)
                requires
                    self.table_size <= MAX_TABLE_SIZE,
            ;
        }
        let sample = scale_amplitude(value, self.amplitude);
        self.index_fp = (self.index_fp + self.index_increment_fp) % ((self.table_size as u64)
            * PHASE_ONE);
        sample
    }

    /// Computes `table_sample_fx` exactly: the linear interpolation between
    /// the two table entries bracketing the current index.
    fn lerp(&self, table: &WaveTable) -> (value: i64)
        requires
            self.well_formed(),
            table.well_formed(),
            table.wave_table_size == self.table_size,
        ensures
            value == table_sample_fx(*table, self.index_fp as int),
            -(AMP_ONE as i64) <= value <= AMP_ONE as i64,
    {
        let truncated_index: u64 = self.index_fp / PHASE_ONE;
        let weight: u64 = self.index_fp % PHASE_ONE;
        proof {
            assert((truncated_index as int) < (self.table_size as int)) by (nonlinear_arith)
                requires
                    (self.index_fp as int) < (self.table_size as int) * (PHASE_ONE as int),
                    truncated_index as int == (self.index_fp as int) / (PHASE_ONE as int),
                    self.table_size >= 1,
            ;
        }
        let ti: usize = truncated_index as usize;
        let next_index: usize = (ti + 1) % self.table_size;
        let a = table.index(ti);
        let b = table.index(next_index);
        proof {
            lemma_lerp_fx_bounds(a as int, b as int, weight as int);
        }
        let au: u64 = (a + AMP_ONE as i64) as u64;
        let bu: u64 = (b + AMP_ONE as i64) as u64;
        let num: u64 = au * (PHASE_ONE - weight) + bu * weight;
        let q: u64 = num / PHASE_ONE;
        q as i64 - AMP_ONE as i64
    }
}

} // verus!
