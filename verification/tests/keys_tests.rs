use wavetable_synth::keys::{decide, pitch_of_key, KeyAction, KeyPress};
use wavetable_synth::notes::{resolve, PitchClass};

#[test]
fn small_q_quits() {
    assert_eq!(decide(KeyPress::Char('q')), KeyAction::Quit);
    assert_eq!(decide(KeyPress::Char('Q')), KeyAction::Ignore);
}

#[test]
fn letters_sound_their_note_in_either_case() {
    let letters = [
        ('a', 'A', PitchClass::A), ('b', 'B', PitchClass::B), ('c', 'C', PitchClass::C),
        ('d', 'D', PitchClass::D), ('e', 'E', PitchClass::E), ('f', 'F', PitchClass::F),
        ('g', 'G', PitchClass::G),
    ];
    for (small, capital, pitch) in letters {
        assert_eq!(decide(KeyPress::Char(small)), KeyAction::Play(pitch));
        assert_eq!(decide(KeyPress::Char(capital)), KeyAction::Play(pitch));
        assert_eq!(pitch_of_key(small), Some(pitch));
        assert_eq!(small.to_uppercase().to_string(), pitch.name());
    }
}

#[test]
fn other_characters_do_nothing() {
    for c in ['h', 'H', '#', ' ', '1', 'z', '\n', '\u{e4}'] {
        assert_eq!(decide(KeyPress::Char(c)), KeyAction::Ignore);
        assert_eq!(pitch_of_key(c), None);
    }
    assert_eq!(decide(KeyPress::Other), KeyAction::Ignore);
}

#[test]
fn modified_keys_and_arrows_are_reported() {
    assert_eq!(decide(KeyPress::Alt('q')), KeyAction::Report);
    assert_eq!(decide(KeyPress::Ctrl('a')), KeyAction::Report);
    assert_eq!(decide(KeyPress::Left), KeyAction::Report);
    assert_eq!(decide(KeyPress::Right), KeyAction::Report);
    assert_eq!(decide(KeyPress::Up), KeyAction::Report);
    assert_eq!(decide(KeyPress::Down), KeyAction::Report);
}

#[test]
fn pitch_names_parse_back() {
    let all = [
        (PitchClass::A, "A"), (PitchClass::ASharp, "A#"), (PitchClass::B, "B"),
        (PitchClass::C, "C"), (PitchClass::CSharp, "C#"), (PitchClass::D, "D"),
        (PitchClass::DSharp, "D#"), (PitchClass::E, "E"), (PitchClass::F, "F"),
        (PitchClass::FSharp, "F#"), (PitchClass::G, "G"), (PitchClass::GSharp, "G#"),
    ];
    for (i, (pitch, name)) in all.into_iter().enumerate() {
        assert_eq!(pitch.name(), name);
        assert_eq!(PitchClass::parse(name), Some(pitch));
        assert_eq!(pitch.index(), i);
    }
    assert_eq!(resolve(PitchClass::DSharp.name(), 440), Ok(62225));
}
