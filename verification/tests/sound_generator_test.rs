use oxidizer::constants::{OscNumber, SoundGenOscParams};
use oxidizer::envelope::EnvelopeADSR;
use oxidizer::sound_generator::SoundGenerator;
use oxidizer::wavetype::WaveType;

#[test]
fn fresh_pool_is_silent() {
    let mut pool = SoundGenerator::new();
    let env = EnvelopeADSR::new();
    assert_eq!(pool.get_sample(&env, None, 0), 0);
    assert_eq!(pool.get_sample(&env, None, 1_000_000), 0);
}

#[test]
fn pressing_the_same_note_twice_keeps_one_voice() {
    let mut pool = SoundGenerator::new();
    pool.note_pressed(5, 0);
    assert_eq!(pool.held_notes.len(), 1);
    pool.note_pressed(5, 1_000);
    assert_eq!(pool.held_notes.len(), 1);
    // The replacement voice carries the new press time.
    assert_eq!(pool.held_notes[0].trigger_on_time, 1_000);
    pool.note_pressed(7, 2_000);
    assert_eq!(pool.held_notes.len(), 2);
}

#[test]
fn releasing_moves_a_note_to_the_releasing_queue() {
    let mut pool = SoundGenerator::new();
    pool.note_pressed(3, 0);
    pool.note_released(3, 10_000);
    assert_eq!(pool.held_notes.len(), 0);
    assert_eq!(pool.released_notes.len(), 1);
    assert!(!pool.released_notes[0].note_pressed);
    assert_eq!(pool.released_notes[0].trigger_off_time, 10_000);
    // Releasing an unknown note is a no-op.
    pool.note_released(3, 20_000);
    pool.note_released(99, 20_000);
    assert_eq!(pool.held_notes.len(), 0);
    assert_eq!(pool.released_notes.len(), 1);
}

#[test]
fn releasing_queue_evicts_the_oldest_when_full() {
    let mut pool = SoundGenerator::new();
    for note in 0..17i64 {
        pool.note_pressed(note, 0);
        pool.note_released(note, 1_000 + note as u64);
    }
    assert_eq!(pool.released_notes.len(), 16);
    // Note 0's voice was evicted: the oldest survivor is note 1's.
    assert_eq!(pool.released_notes[0].trigger_off_time, 1_001);
}

#[test]
fn out_of_range_notes_are_ignored() {
    let mut pool = SoundGenerator::new();
    pool.note_pressed(100_000, 0);
    pool.note_pressed(-100_000, 0);
    assert_eq!(pool.held_notes.len(), 0);
}

#[test]
fn released_voice_is_retired_once_silent() {
    let mut pool = SoundGenerator::new();
    let env = EnvelopeADSR::new();
    pool.note_pressed(0, 0);
    // Released from sustain at 3 s; the two-second release ends at 5 s.
    pool.note_released(0, 3_000_000);
    assert_eq!(pool.released_notes.len(), 1);
    // One second into the release the voice is still audible and stays.
    let _ = pool.get_sample(&env, None, 4_000_000);
    assert_eq!(pool.released_notes.len(), 1);
    // At the end of the release the envelope is exactly zero and the
    // voice is removed within that same mixing pass.
    let sample = pool.get_sample(&env, None, 5_000_000);
    assert_eq!(sample, 0);
    assert_eq!(pool.released_notes.len(), 0);
}

#[test]
fn held_note_sounds_through_the_envelope() {
    let mut pool = SoundGenerator::new();
    let env = EnvelopeADSR::new();
    pool.note_pressed(0, 0);
    // At the press instant the envelope is still zero.
    assert_eq!(pool.get_sample(&env, None, 0), 0);
    // Half way through the attack the note is audible.
    let mut heard = false;
    let mut t: u64 = 100_000;
    while t <= 600_000 {
        if pool.get_sample(&env, None, t) != 0 {
            heard = true;
        }
        t += 100_000;
    }
    assert!(heard);
}

#[test]
fn updating_params_retunes_held_notes() {
    let mut pool = SoundGenerator::new();
    pool.note_pressed(0, 0);
    // The default first slot holds two sine voices.
    assert_eq!(pool.held_notes[0].slots[0].voices.len(), 2);
    let square_single = SoundGenOscParams {
        num: OscNumber::Osc1,
        enabled: true,
        wave_type: WaveType::Square,
        unisons: 1,
        unison_detune_permille: 0,
    };
    pool.update_oscillator_params(square_single);
    assert_eq!(pool.held_notes[0].slots[0].voices.len(), 1);
    assert_eq!(pool.held_notes[0].slots[0].voices[0].get_frequency(), 220_000);
    // Disabling the slot mutes it but keeps its voices.
    let disabled = SoundGenOscParams { enabled: false, ..square_single };
    pool.update_oscillator_params(disabled);
    assert!(!pool.held_notes[0].slots[0].enabled);
    assert_eq!(pool.held_notes[0].slots[0].voices.len(), 1);
    let env = EnvelopeADSR::new();
    assert_eq!(pool.get_sample(&env, None, 500_000), 0);
}
