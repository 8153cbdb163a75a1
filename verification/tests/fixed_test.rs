use oxidizer::fixed::{
    gain_to_amplitude, scale_amplitude, sine_value, wave_value, AMP_ONE, HALF_PHASE, PHASE_ONE,
};
use oxidizer::wavetype::WaveType;

#[test]
fn sine_hits_exact_cardinal_points() {
    assert_eq!(sine_value(0), 0);
    assert_eq!(sine_value(PHASE_ONE / 4), 1_000_000);
    assert_eq!(sine_value(HALF_PHASE), 0);
    assert_eq!(sine_value(3 * (PHASE_ONE / 4)), -1_000_000);
}

#[test]
fn sine_tracks_the_real_sine() {
    // Bhaskara's approximation is within 0.2% of the real sine.
    for i in 0..256u64 {
        let phase = i * (PHASE_ONE / 256);
        let got = sine_value(phase) as f64 / AMP_ONE as f64;
        let real = (2.0 * std::f64::consts::PI * i as f64 / 256.0).sin();
        assert!(
            (got - real).abs() < 0.002,
            "sine off at step {}: {} vs {}",
            i,
            got,
            real
        );
    }
}

#[test]
fn sine_is_symmetric() {
    for i in 1..128u64 {
        let phase = i * (HALF_PHASE / 128);
        assert_eq!(sine_value(phase), -sine_value(phase + HALF_PHASE));
    }
}

#[test]
fn saw_is_a_rising_ramp() {
    assert_eq!(wave_value(WaveType::Saw, 0), -1_000_000);
    assert_eq!(wave_value(WaveType::Saw, PHASE_ONE / 2), 0);
    assert_eq!(wave_value(WaveType::Saw, PHASE_ONE / 4), -500_000);
    assert_eq!(wave_value(WaveType::Saw, PHASE_ONE - 1), 999_999);
}

#[test]
fn triangle_peaks_at_quarter_cycle() {
    assert_eq!(wave_value(WaveType::Triangle, 0), 0);
    assert_eq!(wave_value(WaveType::Triangle, PHASE_ONE / 4), 1_000_000);
    assert_eq!(wave_value(WaveType::Triangle, PHASE_ONE / 2), 0);
    assert_eq!(wave_value(WaveType::Triangle, 3 * (PHASE_ONE / 4)), -1_000_000);
    assert_eq!(wave_value(WaveType::Triangle, PHASE_ONE / 8), 500_000);
}

#[test]
fn square_follows_inverted_sine_sign() {
    // The reference convention: +1 where the sine is negative.
    assert_eq!(wave_value(WaveType::Square, 0), -1_000_000);
    assert_eq!(wave_value(WaveType::Square, PHASE_ONE / 4), -1_000_000);
    assert_eq!(wave_value(WaveType::Square, HALF_PHASE), -1_000_000);
    assert_eq!(wave_value(WaveType::Square, HALF_PHASE + 1), 1_000_000);
    assert_eq!(wave_value(WaveType::Square, PHASE_ONE - 1), 1_000_000);
}

#[test]
fn pulse_has_twenty_percent_duty_cycle() {
    assert_eq!(wave_value(WaveType::Pulse, 0), 1_000_000);
    assert_eq!(wave_value(WaveType::Pulse, PHASE_ONE / 5 - 1), 1_000_000);
    assert_eq!(wave_value(WaveType::Pulse, PHASE_ONE / 5 + 1), -1_000_000);
    assert_eq!(wave_value(WaveType::Pulse, HALF_PHASE), -1_000_000);
}

#[test]
fn gain_zero_decibels_is_unity() {
    assert_eq!(gain_to_amplitude(0), 1_000_000);
}

#[test]
fn gain_follows_decibel_scale() {
    // -50 dB is an amplitude factor of about 0.00316.
    assert_eq!(gain_to_amplitude(-50), 3_162);
    // +40 dB is a factor of exactly 100.
    assert_eq!(gain_to_amplitude(40), 100_000_000);
    assert_eq!(gain_to_amplitude(-100), 9);
    assert_eq!(gain_to_amplitude(-20), 99_999);
}

#[test]
fn amplitude_scaling_is_symmetric() {
    assert_eq!(scale_amplitude(500_000, 2_000_000), 1_000_000);
    assert_eq!(scale_amplitude(-500_000, 2_000_000), -1_000_000);
    // The magnitude is floored, so scaling is symmetric around zero.
    assert_eq!(scale_amplitude(3, 500_000), 1);
    assert_eq!(scale_amplitude(-3, 500_000), -1);
    assert_eq!(scale_amplitude(123, 0), 0);
}
