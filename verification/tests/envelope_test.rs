use oxidizer::envelope::EnvelopeADSR;

#[test]
fn attack_ramp_is_linear() {
    let env = EnvelopeADSR::new();
    // Halfway through the one-second attack the level is half the start
    // amplitude.
    assert_eq!(env.get_amplitude(500_000, 0, 0, true), 55_000);
    assert_eq!(env.get_amplitude(250_000, 0, 0, true), 27_500);
}

#[test]
fn attack_reaches_start_amplitude_at_boundary() {
    let env = EnvelopeADSR::new();
    assert_eq!(env.get_amplitude(1_000_000, 0, 0, true), 110_000);
}

#[test]
fn attack_is_monotone() {
    let env = EnvelopeADSR::new();
    let mut previous = 0u64;
    let mut t = 0u64;
    while t <= 1_000_000 {
        let amp = env.get_amplitude(t, 0, 0, true);
        assert!(amp >= previous, "attack not monotone at t={}", t);
        previous = amp;
        t += 10_000;
    }
}

#[test]
fn decay_interpolates_toward_sustain() {
    let mut env = EnvelopeADSR::new();
    env.set_decay_time(2_000_000);
    // Decay is measured from note-on: at 1.5 s the level has fallen a
    // quarter of the way from start (0.11) to sustain (0.1).
    assert_eq!(env.get_amplitude(1_500_000, 0, 0, true), 107_500);
    // Past the decay window the level sustains.
    assert_eq!(env.get_amplitude(2_500_000, 0, 0, true), 100_000);
}

#[test]
fn sustain_holds_after_decay() {
    let env = EnvelopeADSR::new();
    assert_eq!(env.get_amplitude(3_000_000, 0, 0, true), 100_000);
    assert_eq!(env.get_amplitude(30_000_000, 0, 0, true), 100_000);
}

#[test]
fn release_ramps_to_zero() {
    let env = EnvelopeADSR::new();
    // Note released at 3 s from the sustain level, two-second release.
    assert_eq!(env.get_amplitude(4_000_000, 0, 3_000_000, false), 50_000);
    assert_eq!(env.get_amplitude(5_000_000, 0, 3_000_000, false), 0);
    assert_eq!(env.get_amplitude(9_000_000, 0, 3_000_000, false), 0);
}

#[test]
fn release_from_mid_attack_starts_at_reached_level() {
    let env = EnvelopeADSR::new();
    // Released half way through the attack: the release ramp starts at
    // the level the attack had reached (0.055).
    assert_eq!(env.get_amplitude(500_000, 0, 500_000, false), 55_000);
    assert_eq!(env.get_amplitude(1_500_000, 0, 500_000, false), 27_500);
}

#[test]
fn near_silence_clamps_to_exact_zero() {
    let env = EnvelopeADSR::new();
    // 909 us into the attack the raw level is 99 (at most the 100
    // epsilon): reported as exactly zero.
    assert_eq!(env.get_amplitude(909, 0, 0, true), 0);
    // 919 us in it is 101, just above the clamp.
    assert_eq!(env.get_amplitude(919, 0, 0, true), 101);
}

#[test]
fn setters_update_durations() {
    let mut env = EnvelopeADSR::new();
    env.set_attack_time(500_000);
    env.set_release_time(100_000);
    assert_eq!(env.get_amplitude(500_000, 0, 0, true), 110_000);
    assert_eq!(env.get_amplitude(3_100_000, 0, 3_000_000, false), 0);
}
