use oxidizer::pitch::frequency_from_cents;

#[test]
fn base_note_is_220_hz() {
    assert_eq!(frequency_from_cents(0), 220_000);
}

#[test]
fn octaves_are_exact_powers_of_two() {
    assert_eq!(frequency_from_cents(1200), 440_000);
    assert_eq!(frequency_from_cents(2400), 880_000);
    assert_eq!(frequency_from_cents(-1200), 110_000);
    assert_eq!(frequency_from_cents(-2400), 55_000);
}

#[test]
fn semitones_follow_equal_temperament() {
    // One semitone up: 220 * 2^(1/12) = 233.0818... Hz.
    assert_eq!(frequency_from_cents(100), 233_081);
    // A fifth up: 220 * 2^(7/12) = 329.6275... Hz.
    assert_eq!(frequency_from_cents(700), 329_627);
    assert_eq!(frequency_from_cents(-100), 207_652);
}

#[test]
fn detune_cents_move_the_pitch() {
    assert_eq!(frequency_from_cents(50), 226_446);
    assert_eq!(frequency_from_cents(-50), 213_737);
    assert_eq!(frequency_from_cents(200), 246_941);
    assert_eq!(frequency_from_cents(-200), 195_997);
}

#[test]
fn pitch_scale_is_increasing_near_base() {
    let mut previous = frequency_from_cents(-1200);
    let mut c: i64 = -1199;
    while c <= 1200 {
        let f = frequency_from_cents(c);
        assert!(f > previous, "pitch scale not increasing at {} cents", c);
        previous = f;
        c += 1;
    }
}
