use oxidizer::fixed::AMP_ONE;
use oxidizer::wavetable::{WaveTable, WaveTables, WAVE_TABLE_SAMPLES};
use oxidizer::wavetable_oscillator::WavetableOscillator;
use oxidizer::wavetype::WaveType;

#[test]
fn sine_table_round_trips_at_exact_indices() {
    // Entry i of a sine table of size n is the engine's sine of i/n of a
    // cycle, which tracks sin(2 pi i / n) within the approximation error.
    let table = WaveTable::new(128, WaveType::Sin);
    for i in 0..128usize {
        let got = table.index(i) as f64 / AMP_ONE as f64;
        let real = (2.0 * std::f64::consts::PI * i as f64 / 128.0).sin();
        assert!(
            (got - real).abs() < 0.002,
            "table entry {} off: {} vs {}",
            i,
            got,
            real
        );
    }
    assert_eq!(table.index(0), 0);
    assert_eq!(table.index(32), 1_000_000);
    assert_eq!(table.index(64), 0);
    assert_eq!(table.index(96), -1_000_000);
}

#[test]
fn bank_holds_one_table_per_shape() {
    let bank = WaveTables::new();
    let square = bank.get_wave_table(&WaveType::Square);
    assert_eq!(square.index(0), -1_000_000);
    assert_eq!(square.index(WAVE_TABLE_SAMPLES / 2 + 1), 1_000_000);
    let saw = bank.get_wave_table(&WaveType::Saw);
    assert_eq!(saw.index(0), -1_000_000);
    let pulse = bank.get_wave_table(&WaveType::Pulse);
    assert_eq!(pulse.index(0), 1_000_000);
    assert_eq!(pulse.index(WAVE_TABLE_SAMPLES / 2), -1_000_000);
}

#[test]
fn table_walk_at_whole_steps_reads_entries_exactly() {
    // 1378.125 Hz at 44100 Hz over a 128-entry table advances exactly
    // four entries per tick: no interpolation error at all.
    let table = WaveTable::new(128, WaveType::Sin);
    let mut osc = WavetableOscillator::new(44_100, &table);
    osc.set_frequency(1_378_125);
    for k in 0..256usize {
        let sample = osc.get_sample(&table);
        assert_eq!(sample, table.index((4 * k) % 128));
    }
}

#[test]
fn half_step_walk_interpolates_between_entries() {
    // 128 Hz at a 32768 Hz sample rate advances exactly half an entry
    // per tick, so every other sample is the floor-average of two
    // neighbouring entries.
    let table = WaveTable::new(128, WaveType::Sin);
    let mut osc = WavetableOscillator::new(32_768, &table);
    osc.set_frequency(128_000);
    let first = osc.get_sample(&table);
    assert_eq!(first, table.index(0));
    let second = osc.get_sample(&table);
    let a = table.index(0) + AMP_ONE as i64;
    let b = table.index(1) + AMP_ONE as i64;
    let expected = (a + b) / 2 - AMP_ONE as i64;
    assert_eq!(second, expected);
}

#[test]
fn changing_tables_keeps_the_walk_in_bounds() {
    let big = WaveTable::new(128, WaveType::Saw);
    let small = WaveTable::new(4, WaveType::Saw);
    let mut osc = WavetableOscillator::new(44_100, &big);
    osc.set_frequency(2_756_250);
    for _ in 0..100 {
        let _ = osc.get_sample(&big);
    }
    osc.set_wave_table(&small);
    // The index was wrapped into the smaller table's range: sampling
    // cannot step outside it.
    for _ in 0..100 {
        let s = osc.get_sample(&small);
        assert!(s >= -(AMP_ONE as i64) && s <= AMP_ONE as i64);
    }
}
