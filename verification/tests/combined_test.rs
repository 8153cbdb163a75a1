use oxidizer::combined_oscillator::CombinedOscillator;
use oxidizer::general_oscillator::GeneralOscillator;
use oxidizer::wavetype::WaveType;

#[test]
fn standalone_voice_applies_its_own_envelope() {
    let mut voice = GeneralOscillator::new(220_000, WaveType::Sin, 0);
    // At the press instant the default envelope is still zero.
    assert_eq!(voice.get_amplitude(0), 0);
    assert_eq!(voice.get_sample(0), 0);
    // Half way through the one-second attack it reads 0.055.
    assert_eq!(voice.get_amplitude(500_000), 55_000);
}

#[test]
fn standalone_voice_goes_silent_after_release() {
    let mut voice = GeneralOscillator::new(220_000, WaveType::Saw, 0);
    voice.note_released(3_000_000);
    // The default release lasts two seconds.
    assert!(voice.get_amplitude(4_000_000) > 0);
    assert_eq!(voice.get_amplitude(5_000_000), 0);
    assert_eq!(voice.get_sample(5_000_000), 0);
}

#[test]
fn standalone_voice_durations_are_adjustable() {
    let mut voice = GeneralOscillator::new(220_000, WaveType::Sin, 0);
    voice.set_attack_time(200_000);
    voice.set_decay_time(400_000);
    voice.set_release_time(100_000);
    assert_eq!(voice.get_amplitude(200_000), 110_000);
    voice.note_released(1_000_000);
    assert_eq!(voice.get_amplitude(1_100_000), 0);
}

#[test]
fn empty_bank_is_silent() {
    let mut bank = CombinedOscillator::new();
    assert_eq!(bank.len(), 0);
    assert_eq!(bank.get_sample(0), 0);
    assert_eq!(bank.get_sample(700_000), 0);
}

#[test]
fn bank_sums_its_voices() {
    let mut solo = GeneralOscillator::new(330_000, WaveType::Saw, 0);
    let mut bank = CombinedOscillator::new();
    bank.add_oscillator(GeneralOscillator::new(330_000, WaveType::Saw, 0));
    bank.add_oscillator(GeneralOscillator::new(330_000, WaveType::Saw, 0));
    assert_eq!(bank.len(), 2);
    for step in 0..100u64 {
        let t = 400_000 + step * 23;
        let one = solo.get_sample(t);
        let two = bank.get_sample(t);
        assert_eq!(two, 2 * one, "bank sum diverged at step {}", step);
    }
}
