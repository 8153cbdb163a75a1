//! A polyphonic software-synthesizer voice engine.
//!
//! Given a stream of note-on/note-off and parameter-change events, the engine
//! produces a sequence of audio samples by summing the output of several
//! simultaneously sounding notes, each shaped by an attack-decay-sustain-release
//! envelope and composed of one or more detuned unison oscillator voices.
//!
//! All quantities are fixed-point integers so that every stage of the sample
//! pipeline carries an exact arithmetic contract:
//! * amplitudes and waveform values are scaled by [`fixed::AMP_ONE`] (one
//!   million units per 1.0),
//! * time is measured in microseconds,
//! * frequencies are measured in milli-hertz,
//! * oscillator phase is a 32-bit binary fraction of one waveform cycle.

pub mod combined_oscillator;
pub mod constants;
pub mod envelope;
pub mod fixed;
pub mod general_oscillator;
pub mod keyboard;
pub mod note_generator;
pub mod oscillator;
pub mod pitch;
pub mod sound_generator;
pub mod synthesizer;
pub mod wavetable;
pub mod wavetable_oscillator;
pub mod wavetype;
