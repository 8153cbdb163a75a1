//! Precomputed waveform tables: one cycle of each waveform shape, sampled at
//! a fixed number of points for fast lookup.
//!
//! A table is built once and then only read, so a single bank can serve
//! every oscillator. Entry `i` of a table of size `n` holds the waveform
//! value at phase `i * PHASE_ONE / n` — the same per-waveform functions the
//! closed-form oscillator evaluates directly.

use vstd::prelude::*;

use crate::fixed::{wave_fx, wave_value, AMP_ONE, PHASE_ONE};
use crate::wavetype::WaveType;

verus! {

/// Number of samples per cycle in the shared wavetable bank.
pub const WAVE_TABLE_SAMPLES: usize = 128;

/// The largest table size the engine supports.
pub const MAX_TABLE_SIZE: usize = 65536;

/// The phase of table entry `i` in a table of `size` entries.
pub open spec fn table_phase(i: int, size: int) -> int {
    (i * (PHASE_ONE as int)) / size
}

/// Every table entry's phase lies within one cycle.
pub proof fn lemma_table_phase_range(i: int, size: int)
    requires
        0 <= i < size,
    ensures
        0 <= table_phase(i, size) < PHASE_ONE as int,
{
    assert(0 <= (i * (PHASE_ONE as int)) / size < PHASE_ONE as int) by (nonlinear_arith)
        requires
            0 <= i < size,
    ;
}

/// One cycle of one waveform shape, sampled at `wave_table_size` points.
pub struct WaveTable {
    pub wave_type: WaveType,
    pub wave_table: Vec<i64>,
    pub wave_table_size: usize,
}

impl WaveTable {
    /// The shape every table keeps: entry `i` holds exactly the waveform
    /// value at the phase of entry `i`.
    pub open spec fn well_formed(self) -> bool {
        &&& self.wave_table@.len() == self.wave_table_size
        &&& 1 <= self.wave_table_size <= MAX_TABLE_SIZE
        &&& forall|i: int|
            0 <= i < self.wave_table@.len() ==> #[trigger] self.wave_table@[i] == wave_fx(
                self.wave_type,
                table_phase(i, self.wave_table_size as int),
            )
        &&& forall|i: int|
            0 <= i < self.wave_table@.len() ==> -(AMP_ONE as int) <= #[trigger] self.wave_table@[i]
                <= AMP_ONE as int
    }

    /// Builds the table for one waveform shape.
    pub fn new(wave_table_size: usize, wave_type: WaveType) -> (t: WaveTable)
        requires
            1 <= wave_table_size <= MAX_TABLE_SIZE,
        ensures
            t.well_formed(),
            t.wave_type == wave_type,
            t.wave_table_size == wave_table_size,
    {
        let wave_table = Self::populate_wave_table(wave_table_size, wave_type);
        WaveTable { wave_type, wave_table, wave_table_size }
    }

    /// Samples one waveform cycle at `wave_table_size` evenly spaced phases.
    fn populate_wave_table(wave_table_size: usize, wave_type: WaveType) -> (v: Vec<i64>)
        requires
            1 <= wave_table_size <= MAX_TABLE_SIZE,
        ensures
            v@.len() == wave_table_size,
            forall|i: int|
                0 <= i < v@.len() ==> #[trigger] v@[i] == wave_fx(
                    wave_type,
                    table_phase(i, wave_table_size as int),
                ),
            forall|i: int|
                0 <= i < v@.len() ==> -(AMP_ONE as int) <= #[trigger] v@[i] <= AMP_ONE as int,
    {
        let mut v: Vec<i64> = Vec::new();
        let mut n: usize = 0;
        while n < wave_table_size
            invariant
                n <= wave_table_size <= MAX_TABLE_SIZE,
                v@.len() == n,
                forall|i: int|
                    0 <= i < v@.len() ==> #[trigger] v@[i] == wave_fx(
                        wave_type,
                        table_phase(i, wave_table_size as int),
                    ),
                forall|i: int|
                    0 <= i < v@.len() ==> -(AMP_ONE as int) <= #[trigger] v@[i] <= AMP_ONE as int,
            decreases wave_table_size - n,
        {
            proof {
                lemma_table_phase_range(n as int, wave_table_size as int);
            }
            let phase: u64 = ((n as u64) * PHASE_ONE) / (wave_table_size as u64);
            let value = wave_value(wave_type, phase);
            v.push(value);
            n = n + 1;
        }
        v
    }

    /// The table entry at position `i`.
    pub fn index(&self, i: usize) -> (value: i64)
        requires
            self.well_formed(),
            i < self.wave_table_size,
        ensures
            value == self.wave_table@[i as int],
    {
        self.wave_table[i]
    }
}

/// Sampling a wavetable at an exact table index reproduces the waveform
/// value at that entry's phase with no interpolation error: for a sine
/// table, entry `i` is exactly the fixed-point sine of `i / size` of a
/// cycle.
pub proof fn lemma_wavetable_round_trip(t: WaveTable, i: int)
    requires
        t.well_formed(),
        0 <= i < t.wave_table_size,
    ensures
        t.wave_table@[i] == wave_fx(t.wave_type, table_phase(i, t.wave_table_size as int)),
{
}

/// One shared read-only table per waveform shape, built once at startup.
pub struct WaveTables {
    pub sin: WaveTable,
    pub saw: WaveTable,
    pub tri: WaveTable,
    pub square: WaveTable,
    pub pulse: WaveTable,
}

impl WaveTables {
    /// Each table holds its own shape at the shared size.
    pub open spec fn well_formed(self) -> bool {
        &&& self.sin.well_formed() && self.sin.wave_type == WaveType::Sin
        &&& self.saw.well_formed() && self.saw.wave_type == WaveType::Saw
        &&& self.tri.well_formed() && self.tri.wave_type == WaveType::Triangle
        &&& self.square.well_formed() && self.square.wave_type == WaveType::Square
        &&& self.pulse.well_formed() && self.pulse.wave_type == WaveType::Pulse
        &&& self.sin.wave_table_size == WAVE_TABLE_SAMPLES
        &&& self.saw.wave_table_size == WAVE_TABLE_SAMPLES
        &&& self.tri.wave_table_size == WAVE_TABLE_SAMPLES
        &&& self.square.wave_table_size == WAVE_TABLE_SAMPLES
        &&& self.pulse.wave_table_size == WAVE_TABLE_SAMPLES
    }

    /// Builds the bank: one table of `WAVE_TABLE_SAMPLES` entries per shape.
    pub fn new() -> (r: WaveTables)
        ensures
            r.well_formed(),
    {
        WaveTables {
            sin: WaveTable::new(WAVE_TABLE_SAMPLES, WaveType::Sin),
            saw: WaveTable::new(WAVE_TABLE_SAMPLES, WaveType::Saw),
            tri: WaveTable::new(WAVE_TABLE_SAMPLES, WaveType::Triangle),
            square: WaveTable::new(WAVE_TABLE_SAMPLES, WaveType::Square),
            pulse: WaveTable::new(WAVE_TABLE_SAMPLES, WaveType::Pulse),
        }
    }

    /// The bank's table for the requested waveform shape.
    pub fn get_wave_table(&self, wave_type: &WaveType) -> (t: &WaveTable)
        requires
            self.well_formed(),
        ensures
            t.well_formed(),
            t.wave_type == *wave_type,
            t.wave_table_size == WAVE_TABLE_SAMPLES,
    {
        match wave_type {
            WaveType::Sin => &self.sin,
            WaveType::Saw => &self.saw,
            WaveType::Triangle => &self.tri,
            WaveType::Square => &self.square,
            WaveType::Pulse => &self.pulse,
        }
    }
}

} // verus!
