use vstd::prelude::*;
use crate::notes::{pitch_class_of, PitchClass};

verus! {

/// A key of the terminal, as the player decides on it.
#[derive(Clone, Copy, Debug, PartialEq, Eq, Structural)]
pub enum KeyPress {
    /// A character key.
    Char(char),
    /// A character key with Alt held.
    Alt(char),
    /// A character key with Ctrl held.
    Ctrl(char),
    Left,
    Right,
    Up,
    Down,
    /// Any other key.
    Other,
}

/// What the player does on a key.
#[derive(Clone, Copy, Debug, PartialEq, Eq, Structural)]
pub enum KeyAction {
    /// Leave the player.
    Quit,
    /// Sound the note of this pitch class.
    Play(PitchClass),
    /// Name the key to the user.
    Report,
    /// Nothing.
    Ignore,
}

/// The pitch class that a character key sounds: that of its letter, small
/// or capital, from A to G.
pub open spec fn key_pitch(key: char) -> Option<PitchClass> {
    if key == 'a' || key == 'A' {
        Some(PitchClass::A)
    } else if key == 'b' || key == 'B' {
        Some(PitchClass::B)
    } else if key == 'c' || key == 'C' {
        Some(PitchClass::C)
    } else if key == 'd' || key == 'D' {
        Some(PitchClass::D)
    } else if key == 'e' || key == 'E' {
        Some(PitchClass::E)
    } else if key == 'f' || key == 'F' {
        Some(PitchClass::F)
    } else if key == 'g' || key == 'G' {
        Some(PitchClass::G)
    } else {
        None
    }
}

/// What the player does on `key`: a small `q` quits, a letter from A to G
/// sounds its note, a key with Alt or Ctrl and an arrow are named, and
/// nothing happens on the rest.
pub open spec fn action_of(key: KeyPress) -> KeyAction {
    match key {
        KeyPress::Char(c) => if c == 'q' {
            KeyAction::Quit
        } else {
            match key_pitch(c) {
                Some(pitch) => KeyAction::Play(pitch),
                None => KeyAction::Ignore,
            }
        },
        KeyPress::Other => KeyAction::Ignore,
        _ => KeyAction::Report,
    }
}

/// Decides what to do on `key`.
pub fn decide(key: KeyPress) -> (action: KeyAction)
    ensures
        action == action_of(key),
{
    match key {
        KeyPress::Char(c) => {
            if c == 'q' {
                KeyAction::Quit
            } else {
                match pitch_of_key(c) {
                    Some(pitch) => KeyAction::Play(pitch),
                    None => KeyAction::Ignore,
                }
            }
        },
        KeyPress::Alt(_) | KeyPress::Ctrl(_) => KeyAction::Report,
        KeyPress::Left | KeyPress::Right | KeyPress::Up | KeyPress::Down => KeyAction::Report,
        KeyPress::Other => KeyAction::Ignore,
    }
}

/// The pitch class that the character key `key` sounds, if it sounds one.
pub fn pitch_of_key(key: char) -> (r: Option<PitchClass>)
    ensures
        r == key_pitch(key),
{
    if key == 'a' || key == 'A' {
        Some(PitchClass::A)
    } else if key == 'b' || key == 'B' {
        Some(PitchClass::B)
    } else if key == 'c' || key == 'C' {
        Some(PitchClass::C)
    } else if key == 'd' || key == 'D' {
        Some(PitchClass::D)
    } else if key == 'e' || key == 'E' {
        Some(PitchClass::E)
    } else if key == 'f' || key == 'F' {
        Some(PitchClass::F)
    } else if key == 'g' || key == 'G' {
        Some(PitchClass::G)
    } else {
        None
    }
}

/// A key never sounds a sharp, and the name of the note that it sounds
/// names that note's pitch class again.
pub proof fn lemma_key_pitch_is_natural(key: char)
    requires
        key_pitch(key) is Some,
    ensures
        ({
            let pitch = key_pitch(key)->Some_0;
            &&& pitch_class_of(pitch.spec_name()) == Some(pitch)
            &&& pitch.spec_name().len() == 1
        }),
{
}

} // verus!
