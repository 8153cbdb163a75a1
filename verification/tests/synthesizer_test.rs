use oxidizer::constants::{OscNumber, SoundGenOscParams};
use oxidizer::synthesizer::{EnvelopeParam, SynthEvent, Synthesizer};
use oxidizer::wavetype::WaveType;

fn single_sine_voice() -> SynthEvent {
    SynthEvent::ChangeSoundGenOscParams(SoundGenOscParams {
        num: OscNumber::Osc1,
        enabled: true,
        wave_type: WaveType::Sin,
        unisons: 1,
        unison_detune_permille: 0,
    })
}

#[test]
fn stream_metadata_is_fixed() {
    let synth = Synthesizer::new();
    assert_eq!(synth.channels(), 1);
    assert_eq!(synth.sample_rate(), 44_100);
}

#[test]
fn silent_until_an_event_arrives() {
    let mut synth = Synthesizer::new();
    for _ in 0..1000 {
        assert_eq!(synth.get_synth_sample(), 0);
    }
}

#[test]
fn pressed_note_rises_through_the_attack() {
    // Press note 0 at t = 0: one sine voice at 220 Hz, attack 1 s, decay
    // 1 s (measured from note-on), sustain 0.1, start 0.11. Over the
    // first second of samples the envelope rises monotonically from zero
    // toward the start amplitude.
    let mut synth = Synthesizer::new();
    synth.handle_event(single_sine_voice());
    synth.handle_event(SynthEvent::NotePress(0));
    assert_eq!(synth.get_synth_sample(), 0, "the press instant is silent");
    let mut previous_env: u64 = 0;
    for i in 1..=44_100u64 {
        let sample = synth.get_synth_sample();
        assert!(sample.unsigned_abs() <= 110_000);
        if i % 441 == 0 {
            let t = i * 1_000_000 / 44_100;
            let env_level = synth.envelope.get_amplitude(t, 0, 0, true);
            assert!(env_level >= previous_env, "envelope fell at tick {}", i);
            previous_env = env_level;
        }
    }
    // After one second of ticks the envelope has reached 0.11.
    let env_level = synth.envelope.get_amplitude(1_000_000, 0, 0, true);
    assert_eq!(env_level, 110_000);
    assert_eq!(synth.tick, 44_101);
}

#[test]
fn release_event_moves_the_note_out_of_held() {
    let mut synth = Synthesizer::new();
    synth.handle_event(single_sine_voice());
    synth.handle_event(SynthEvent::NotePress(0));
    assert_eq!(synth.sound_generator.held_notes.len(), 1);
    synth.handle_event(SynthEvent::NoteRelease(0));
    assert_eq!(synth.sound_generator.held_notes.len(), 0);
    assert_eq!(synth.sound_generator.released_notes.len(), 1);
}

#[test]
fn released_note_decays_to_silence_and_is_retired() {
    let mut synth = Synthesizer::new();
    synth.handle_event(single_sine_voice());
    synth.handle_event(SynthEvent::NotePress(0));
    // Hold for one second of samples, then release.
    for _ in 0..44_100 {
        let _ = synth.get_synth_sample();
    }
    synth.handle_event(SynthEvent::NoteRelease(0));
    // The default release lasts two seconds: run three seconds of
    // samples, after which the voice must be gone and the engine silent.
    for _ in 0..(3 * 44_100) {
        let _ = synth.get_synth_sample();
    }
    assert_eq!(synth.sound_generator.released_notes.len(), 0);
    assert_eq!(synth.get_synth_sample(), 0);
}

#[test]
fn envelope_events_change_durations() {
    let mut synth = Synthesizer::new();
    synth.handle_event(SynthEvent::ChangeEnvelope(EnvelopeParam::AttackTime, 500_000));
    synth.handle_event(SynthEvent::ChangeEnvelope(EnvelopeParam::DecayTime, 700_000));
    synth.handle_event(SynthEvent::ChangeEnvelope(EnvelopeParam::ReleaseTime, 900_000));
    assert_eq!(synth.envelope.attack_time, 500_000);
    assert_eq!(synth.envelope.decay_time, 700_000);
    assert_eq!(synth.envelope.release_time, 900_000);
}

#[test]
fn oscillator_events_are_clamped_into_range() {
    let mut synth = Synthesizer::new();
    synth.handle_event(SynthEvent::ChangeSoundGenOscParams(SoundGenOscParams {
        num: OscNumber::Osc2,
        enabled: true,
        wave_type: WaveType::Pulse,
        unisons: 1_000,
        unison_detune_permille: 50_000,
    }));
    let stored = &synth.sound_generator.generators[1];
    assert_eq!(stored.unisons, 16);
    assert_eq!(stored.unison_detune_permille, 1_000);
    assert_eq!(stored.wave_type, WaveType::Pulse);
}

#[test]
fn unknown_note_events_are_ignored() {
    let mut synth = Synthesizer::new();
    synth.handle_event(SynthEvent::NotePress(1_000_000));
    assert_eq!(synth.sound_generator.held_notes.len(), 0);
    synth.handle_event(SynthEvent::NoteRelease(42));
    assert_eq!(synth.get_synth_sample(), 0);
}

#[test]
fn rapid_retrigger_layers_a_new_voice() {
    // Pressing a note that is already releasing starts a brand-new held
    // voice while the old one keeps decaying independently.
    let mut synth = Synthesizer::new();
    synth.handle_event(single_sine_voice());
    synth.handle_event(SynthEvent::NotePress(0));
    for _ in 0..4_410 {
        let _ = synth.get_synth_sample();
    }
    synth.handle_event(SynthEvent::NoteRelease(0));
    synth.handle_event(SynthEvent::NotePress(0));
    assert_eq!(synth.sound_generator.held_notes.len(), 1);
    assert_eq!(synth.sound_generator.released_notes.len(), 1);
}
