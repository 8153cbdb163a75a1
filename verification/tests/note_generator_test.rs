use oxidizer::note_generator::{NoteGenerator, NoteOscillatorParams};
use oxidizer::wavetype::WaveType;

fn single_slot_params(slot0: NoteOscillatorParams) -> Vec<NoteOscillatorParams> {
    let disabled = NoteOscillatorParams {
        enabled: false,
        wave_type: WaveType::Sin,
        unisons: 1,
        unison_detune_permille: 0,
    };
    vec![
        slot0,
        NoteOscillatorParams { ..disabled },
        NoteOscillatorParams { ..disabled },
    ]
}

#[test]
fn four_voice_unison_is_symmetric() {
    // Unison count 4 at detune 0.5: pairs at +-1.0 and +-0.5 semitones
    // around 220 Hz, widest first, and no voice at the centre.
    let params = single_slot_params(NoteOscillatorParams::new(WaveType::Sin, 4, 500));
    let gen = NoteGenerator::new(0, &params, 0);
    let voices = &gen.slots[0].voices;
    assert_eq!(voices.len(), 4);
    assert_eq!(voices[0].get_frequency(), 233_081);
    assert_eq!(voices[1].get_frequency(), 207_652);
    assert_eq!(voices[2].get_frequency(), 226_446);
    assert_eq!(voices[3].get_frequency(), 213_737);
    for v in voices.iter() {
        assert_ne!(v.get_frequency(), 220_000);
    }
}

#[test]
fn odd_unison_adds_a_centre_voice() {
    let params = single_slot_params(NoteOscillatorParams::new(WaveType::Sin, 3, 1000));
    let gen = NoteGenerator::new(0, &params, 0);
    let voices = &gen.slots[0].voices;
    assert_eq!(voices.len(), 3);
    // Full detune: the pair sits two semitones out.
    assert_eq!(voices[0].get_frequency(), 246_941);
    assert_eq!(voices[1].get_frequency(), 195_997);
    // The centre voice is exactly the note's own pitch.
    assert_eq!(voices[2].get_frequency(), 220_000);
}

#[test]
fn single_voice_sounds_the_note_itself() {
    let params = single_slot_params(NoteOscillatorParams::new(WaveType::Sin, 1, 500));
    let gen = NoteGenerator::new(12, &params, 0);
    let voices = &gen.slots[0].voices;
    assert_eq!(voices.len(), 1);
    // Note 12 is one octave above the base note.
    assert_eq!(voices[0].get_frequency(), 440_000);
}

#[test]
fn disabled_slots_hold_no_voices() {
    let params = single_slot_params(NoteOscillatorParams::new(WaveType::Sin, 2, 500));
    let gen = NoteGenerator::new(0, &params, 0);
    assert!(gen.slots[0].enabled);
    assert_eq!(gen.slots[1].voices.len(), 0);
    assert_eq!(gen.slots[2].voices.len(), 0);
}

#[test]
fn release_stamps_the_note() {
    let params = single_slot_params(NoteOscillatorParams::new(WaveType::Sin, 1, 0));
    let mut gen = NoteGenerator::new(0, &params, 1_000);
    assert!(gen.note_pressed);
    assert_eq!(gen.trigger_on_time, 1_000);
    gen.note_released(5_000);
    assert!(!gen.note_pressed);
    assert_eq!(gen.trigger_off_time, 5_000);
    assert_eq!(gen.trigger_on_time, 1_000);
}

#[test]
fn changing_unison_count_keeps_the_phase() {
    let params = single_slot_params(NoteOscillatorParams::new(WaveType::Sin, 1, 0));
    let mut gen = NoteGenerator::new(0, &params, 0);
    for _ in 0..7 {
        let _ = gen.get_sample(0, 0);
    }
    assert_eq!(gen.slots[0].voices[0].get_sample_index(), 7);
    // Rebuilding with a different unison count starts the new cluster at
    // the surviving voice's phase, not at zero.
    let wider = NoteOscillatorParams::new(WaveType::Sin, 4, 500);
    gen.set_note_params(0, &wider);
    assert_eq!(gen.slots[0].voices.len(), 4);
    for v in gen.slots[0].voices.iter() {
        assert_eq!(v.get_sample_index(), 7);
    }
}

#[test]
fn unchanged_count_retunes_in_place() {
    let params = single_slot_params(NoteOscillatorParams::new(WaveType::Sin, 2, 500));
    let mut gen = NoteGenerator::new(0, &params, 0);
    for _ in 0..5 {
        let _ = gen.get_sample(0, 0);
    }
    let retuned = NoteOscillatorParams::new(WaveType::Square, 2, 1000);
    gen.set_note_params(0, &retuned);
    let voices = &gen.slots[0].voices;
    assert_eq!(voices.len(), 2);
    assert_eq!(voices[0].get_frequency(), 246_941);
    assert_eq!(voices[1].get_frequency(), 195_997);
    // Each voice keeps its own sample index.
    assert_eq!(voices[0].get_sample_index(), 5);
    assert_eq!(voices[1].get_sample_index(), 5);
}

#[test]
fn disabling_a_slot_mutes_but_keeps_voices() {
    let params = single_slot_params(NoteOscillatorParams::new(WaveType::Sin, 2, 500));
    let mut gen = NoteGenerator::new(0, &params, 0);
    let loud = gen.get_sample(0, 0);
    let _ = loud;
    let muted = NoteOscillatorParams {
        enabled: false,
        wave_type: WaveType::Sin,
        unisons: 2,
        unison_detune_permille: 500,
    };
    gen.set_note_params(0, &muted);
    assert!(!gen.slots[0].enabled);
    assert_eq!(gen.slots[0].voices.len(), 2);
    // A muted slot contributes nothing.
    assert_eq!(gen.get_sample(0, 0), 0);
}
