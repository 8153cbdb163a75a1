use oxidizer::fixed::PHASE_ONE;
use oxidizer::oscillator::{Oscillator, TICK_MODULUS};
use oxidizer::wavetype::WaveType;

#[test]
fn first_sample_of_a_sine_voice_is_zero() {
    let mut osc = Oscillator::new(220_000, WaveType::Sin, 0);
    assert_eq!(osc.get_sample(0, 0), 0);
    // At tick one, a 220 Hz voice has advanced 220000/44100000 of a cycle.
    assert_eq!(osc.get_sample(0, 0), 31_860);
}

#[test]
fn square_voice_starts_negative() {
    // The closed form inverts the sine's sign: the first half cycle is -1.
    let mut osc = Oscillator::new(220_000, WaveType::Square, 0);
    assert_eq!(osc.get_sample(0, 0), -1_000_000);
}

#[test]
fn voices_are_deterministic() {
    let mut a = Oscillator::new(440_000, WaveType::Saw, 0);
    let mut b = Oscillator::new(440_000, WaveType::Saw, 0);
    for _ in 0..200 {
        assert_eq!(a.get_sample(0, 0), b.get_sample(0, 0));
    }
}

#[test]
fn sample_index_advances_and_wraps() {
    let mut osc = Oscillator::new(220_000, WaveType::Sin, TICK_MODULUS - 1);
    assert_eq!(osc.get_sample_index(), TICK_MODULUS - 1);
    let _ = osc.get_sample(0, 0);
    assert_eq!(osc.get_sample_index(), 0);
}

#[test]
fn set_frequency_keeps_the_index() {
    let mut osc = Oscillator::new(220_000, WaveType::Sin, 0);
    let _ = osc.get_sample(0, 0);
    let _ = osc.get_sample(0, 0);
    let index_before = osc.get_sample_index();
    osc.set_frequency(330_000);
    assert_eq!(osc.get_frequency(), 330_000);
    assert_eq!(osc.get_sample_index(), index_before);
}

#[test]
fn gain_sets_the_amplitude_factor() {
    let mut osc = Oscillator::new(220_000, WaveType::Sin, 0);
    assert_eq!(osc.get_amplitude(), 1_000_000);
    osc.set_gain(-50);
    assert_eq!(osc.get_amplitude(), 3_162);
    // Gains saturate into the allowed range.
    osc.set_gain(-1000);
    assert_eq!(osc.get_amplitude(), 9);
    osc.set_gain(1000);
    assert_eq!(osc.get_amplitude(), 100_000_000);
}

#[test]
fn gain_scales_samples() {
    let mut loud = Oscillator::new(220_000, WaveType::Saw, 0);
    let mut quiet = Oscillator::new(220_000, WaveType::Saw, 0);
    quiet.set_gain(-20);
    for _ in 0..50 {
        let l = loud.get_sample(0, 0);
        let q = quiet.get_sample(0, 0);
        // -20 dB is a factor of 99999/1000000.
        let expected = if l >= 0 {
            (l as i128 * 99_999 / 1_000_000) as i64
        } else {
            -((-l) as i128 * 99_999 / 1_000_000) as i64
        };
        assert_eq!(q, expected);
    }
}

#[test]
fn lfo_modulation_shifts_the_phase() {
    // With a strong LFO the voice's samples differ from the unmodulated
    // ones; with a zero-amplitude LFO they do not.
    let mut plain = Oscillator::new(220_000, WaveType::Sin, 0);
    let mut modulated = Oscillator::new(220_000, WaveType::Sin, 0);
    let mut zeroed = Oscillator::new(220_000, WaveType::Sin, 0);
    let mut saw_difference = false;
    for _ in 0..100 {
        let p = plain.get_sample(0, 0);
        let m = modulated.get_sample(2_000, 1_000_000);
        let z = zeroed.get_sample(2_000, 0);
        assert_eq!(p, z);
        if p != m {
            saw_difference = true;
        }
    }
    assert!(saw_difference);
    assert!(PHASE_ONE > 0);
}
