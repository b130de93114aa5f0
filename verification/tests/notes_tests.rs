use wavetable_synth::error::SynthError;
use wavetable_synth::notes::{
    create_note_to_freq_map, create_note_to_freq_map_432, resolve, NoteRegistry, PitchClass,
    TuningStandard, DEFAULT_FREQUENCY,
};

#[test]
fn resolve_reference_pitch_under_both_standards() {
    assert_eq!(resolve("A", 440), Ok(44000));
    assert_eq!(resolve("A", 432), Ok(43200));
}

#[test]
fn resolve_unknown_note_gives_default() {
    assert_eq!(resolve("H", 440), Ok(44000));
    assert_eq!(resolve("H", 432), Ok(44000));
    assert_eq!(resolve("", 440), Ok(DEFAULT_FREQUENCY));
    assert_eq!(resolve("a", 440), Ok(DEFAULT_FREQUENCY));
    assert_eq!(resolve("B#", 432), Ok(DEFAULT_FREQUENCY));
    assert_eq!(resolve("E#", 432), Ok(DEFAULT_FREQUENCY));
    assert_eq!(resolve("Ab", 440), Ok(DEFAULT_FREQUENCY));
    assert_eq!(resolve("A##", 440), Ok(DEFAULT_FREQUENCY));
    assert_eq!(resolve("\u{266f}", 440), Ok(DEFAULT_FREQUENCY));
}

#[test]
fn resolve_rejects_unsupported_standard() {
    assert_eq!(resolve("A", 415), Err(SynthError::UnsupportedStandard));
    assert_eq!(resolve("H", 0), Err(SynthError::UnsupportedStandard));
    assert_eq!(TuningStandard::from_hertz(441), Err(SynthError::UnsupportedStandard));
    assert_eq!(TuningStandard::from_hertz(440), Ok(TuningStandard::A440));
    assert_eq!(TuningStandard::from_hertz(432), Ok(TuningStandard::A432));
    assert_eq!(TuningStandard::A440.hertz(), 440);
    assert_eq!(TuningStandard::A432.hertz(), 432);
}

#[test]
fn registry_440_defines_all_twelve() {
    let registry = create_note_to_freq_map();
    assert_eq!(registry.tuning(), TuningStandard::A440);
    let expected = [
        ("A", 44000u32), ("A#", 46616), ("B", 49388), ("C", 52325), ("C#", 55437),
        ("D", 58733), ("D#", 62225), ("E", 65925), ("F", 69846), ("F#", 73999),
        ("G", 78399), ("G#", 83061),
    ];
    for (name, frequency) in expected {
        assert_eq!(registry.get(name), Some(frequency));
        assert_eq!(registry.resolve(name), frequency);
    }
    assert_eq!(registry.get("H"), None);
    assert_eq!(registry.resolve("H"), 44000);
}

#[test]
fn registry_432_defines_all_twelve() {
    let registry = create_note_to_freq_map_432();
    assert_eq!(registry.tuning(), TuningStandard::A432);
    let expected = [
        ("A", 43200u32), ("A#", 45769), ("B", 48490), ("C", 51233), ("C#", 54229),
        ("D", 57665), ("D#", 60839), ("E", 64586), ("F", 68472), ("F#", 72538),
        ("G", 76882), ("G#", 81551),
    ];
    for (name, frequency) in expected {
        assert_eq!(registry.get(name), Some(frequency));
        assert_eq!(registry.resolve(name), frequency);
    }
    assert_eq!(registry.get("Q"), None);
    assert_eq!(registry.resolve("Q"), 44000);
}

#[test]
fn registry_for_standard_matches_builders() {
    let registry = NoteRegistry::for_standard(TuningStandard::A432);
    assert_eq!(registry.frequency(PitchClass::A), 43200);
    assert_eq!(registry.frequency(PitchClass::GSharp), 81551);
    let registry = NoteRegistry::for_standard(TuningStandard::A440);
    assert_eq!(registry.frequency(PitchClass::C), 52325);
}

#[test]
fn pitch_class_parse_and_index() {
    assert_eq!(PitchClass::parse("A"), Some(PitchClass::A));
    assert_eq!(PitchClass::parse("F#"), Some(PitchClass::FSharp));
    assert_eq!(PitchClass::parse("B#"), None);
    assert_eq!(PitchClass::parse("#"), None);
    assert_eq!(PitchClass::parse("C "), None);
    assert_eq!(PitchClass::from_letter('G', true), Some(PitchClass::GSharp));
    assert_eq!(PitchClass::from_letter('E', true), None);
    assert_eq!(PitchClass::A.index(), 0);
    assert_eq!(PitchClass::GSharp.index(), 11);
}
