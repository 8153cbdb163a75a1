use oxidizer::synthesizer::Synthesizer;

#[test]
fn do_thing() {
    let mut synth = Synthesizer::new();

    let sample = synth.get_synth_sample();

    assert_eq!(sample, 0, "Initialized synth should return an empty sample");
}
