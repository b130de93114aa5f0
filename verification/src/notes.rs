use vstd::prelude::*;
use vstd::string::StrSliceExecFns;
use crate::error::SynthError;

verus! {

/// The frequency, in hundredths of a hertz, that an unknown note name
/// resolves to: 440.00 Hz.
pub const DEFAULT_FREQUENCY: u32 = 44000;

/// The reference pitch that a registry is tuned to.
#[derive(Clone, Copy, Debug, PartialEq, Eq, Structural)]
pub enum TuningStandard {
    /// A is 440 Hz.
    A440,
    /// A is 432 Hz.
    A432,
}

/// The twelve pitch classes, from A upwards.
#[derive(Clone, Copy, Debug, PartialEq, Eq, Structural)]
pub enum PitchClass {
    A,
    ASharp,
    B,
    C,
    CSharp,
    D,
    DSharp,
    E,
    F,
    FSharp,
    G,
    GSharp,
}

/// The standard with a reference pitch of `hertz`, if it is supported.
pub open spec fn standard_of(hertz: nat) -> Option<TuningStandard> {
    if hertz == 440 {
        Some(TuningStandard::A440)
    } else if hertz == 432 {
        Some(TuningStandard::A432)
    } else {
        None
    }
}

/// The pitch class whose letter is `letter`, raised by a semitone if `sharp`.
/// B and E have no sharp.
pub open spec fn pitch_of_letter(letter: char, sharp: bool) -> Option<PitchClass> {
    if letter == 'A' {
        Some(if sharp { PitchClass::ASharp } else { PitchClass::A })
    } else if letter == 'B' && !sharp {
        Some(PitchClass::B)
    } else if letter == 'C' {
        Some(if sharp { PitchClass::CSharp } else { PitchClass::C })
    } else if letter == 'D' {
        Some(if sharp { PitchClass::DSharp } else { PitchClass::D })
    } else if letter == 'E' && !sharp {
        Some(PitchClass::E)
    } else if letter == 'F' {
        Some(if sharp { PitchClass::FSharp } else { PitchClass::F })
    } else if letter == 'G' {
        Some(if sharp { PitchClass::GSharp } else { PitchClass::G })
    } else {
        None
    }
}

/// The pitch class that `name` names: a capital letter from A to G, alone
/// or followed by `#`.
pub open spec fn pitch_class_of(name: Seq<char>) -> Option<PitchClass> {
    if name.len() == 1 {
        pitch_of_letter(name[0], false)
    } else if name.len() == 2 && name[1] == '#' {
        pitch_of_letter(name[0], true)
    } else {
        None
    }
}

/// The letter of a pitch class.
pub open spec fn pitch_letter(pitch: PitchClass) -> char {
    match pitch {
        PitchClass::A | PitchClass::ASharp => 'A',
        PitchClass::B => 'B',
        PitchClass::C | PitchClass::CSharp => 'C',
        PitchClass::D | PitchClass::DSharp => 'D',
        PitchClass::E => 'E',
        PitchClass::F | PitchClass::FSharp => 'F',
        PitchClass::G | PitchClass::GSharp => 'G',
    }
}

/// Whether a pitch class is a letter raised by a semitone.
pub open spec fn pitch_is_sharp(pitch: PitchClass) -> bool {
    match pitch {
        PitchClass::ASharp
        | PitchClass::CSharp
        | PitchClass::DSharp
        | PitchClass::FSharp
        | PitchClass::GSharp => true,
        _ => false,
    }
}

/// The place of a pitch class in a registry's table.
pub open spec fn pitch_index(pitch: PitchClass) -> int {
    match pitch {
        PitchClass::A => 0,
        PitchClass::ASharp => 1,
        PitchClass::B => 2,
        PitchClass::C => 3,
        PitchClass::CSharp => 4,
        PitchClass::D => 5,
        PitchClass::DSharp => 6,
        PitchClass::E => 7,
        PitchClass::F => 8,
        PitchClass::FSharp => 9,
        PitchClass::G => 10,
        PitchClass::GSharp => 11,
    }
}

/// The frequencies of the twelve pitch classes under `standard`, in
/// hundredths of a hertz, from A upwards.
pub open spec fn standard_table(standard: TuningStandard) -> Seq<u32> {
    match standard {
        TuningStandard::A440 => seq![
            44000u32, 46616u32, 49388u32, 52325u32, 55437u32, 58733u32,
            62225u32, 65925u32, 69846u32, 73999u32, 78399u32, 83061u32,
        ],
        TuningStandard::A432 => seq![
            43200u32, 45769u32, 48490u32, 51233u32, 54229u32, 57665u32,
            60839u32, 64586u32, 68472u32, 72538u32, 76882u32, 81551u32,
        ],
    }
}

/// The frequency of `pitch` under `standard`, in hundredths of a hertz.
pub open spec fn frequency_of(standard: TuningStandard, pitch: PitchClass) -> u32 {
    standard_table(standard)[pitch_index(pitch)]
}

/// The frequency that `name` resolves to under `standard`: that of its
/// pitch class, or the default where it names none.
pub open spec fn resolved_frequency(standard: TuningStandard, name: Seq<char>) -> u32 {
    match pitch_class_of(name) {
        Some(pitch) => frequency_of(standard, pitch),
        None => DEFAULT_FREQUENCY,
    }
}

impl TuningStandard {
    /// The standard with a reference pitch of `hertz`: 440 or 432. Any
    /// other is refused.
    pub fn from_hertz(hertz: u32) -> (r: Result<TuningStandard, SynthError>)
        ensures
            match standard_of(hertz as nat) {
                Some(standard) => r == Ok::<TuningStandard, SynthError>(standard),
                None => r == Err::<TuningStandard, SynthError>(SynthError::UnsupportedStandard),
            },
    {
        if hertz == 440 {
            Ok(TuningStandard::A440)
        } else if hertz == 432 {
            Ok(TuningStandard::A432)
        } else {
            Err(SynthError::UnsupportedStandard)
        }
    }

    /// The reference pitch in hertz.
    pub fn hertz(self) -> (hertz: u32)
        ensures
            standard_of(hertz as nat) == Some(self),
    {
        match self {
            TuningStandard::A440 => 440,
            TuningStandard::A432 => 432,
        }
    }
}

impl PitchClass {
    /// The pitch class that `name` names, if it names one.
    pub fn parse(name: &str) -> (r: Option<PitchClass>)
        ensures
            r == pitch_class_of(name@),
    {
        let n = name.unicode_len();
        if n == 1 {
            Self::from_letter(name.get_char(0), false)
        } else if n == 2 {
            if name.get_char(1) == '#' {
                Self::from_letter(name.get_char(0), true)
            } else {
                None
            }
        } else {
            None
        }
    }

    /// The name of the pitch class: its letter, followed by `#` if it is
    /// sharp.
    pub open spec fn spec_name(self) -> Seq<char> {
        if pitch_is_sharp(self) {
            seq![pitch_letter(self), '#']
        } else {
            seq![pitch_letter(self)]
        }
    }

    /// The name of the pitch class.
    pub fn name(self) -> (name: &'static str)
        ensures
            name@ == self.spec_name(),
    {
        proof {
            reveal_strlit("A");
            reveal_strlit("A#");
            reveal_strlit("B");
            reveal_strlit("C");
            reveal_strlit("C#");
            reveal_strlit("D");
            reveal_strlit("D#");
            reveal_strlit("E");
            reveal_strlit("F");
            reveal_strlit("F#");
            reveal_strlit("G");
            reveal_strlit("G#");
        }
        let name = match self {
            PitchClass::A => "A",
            PitchClass::ASharp => "A#",
            PitchClass::B => "B",
            PitchClass::C => "C",
            PitchClass::CSharp => "C#",
            PitchClass::D => "D",
            PitchClass::DSharp => "D#",
            PitchClass::E => "E",
            PitchClass::F => "F",
            PitchClass::FSharp => "F#",
            PitchClass::G => "G",
            PitchClass::GSharp => "G#",
        };
        assert(name@ =~= self.spec_name());
        name
    }

    /// The pitch class of a letter, raised by a semitone if `sharp`.
    pub fn from_letter(letter: char, sharp: bool) -> (r: Option<PitchClass>)
        ensures
            r == pitch_of_letter(letter, sharp),
    {
        if letter == 'A' {
            Some(if sharp { PitchClass::ASharp } else { PitchClass::A })
        } else if letter == 'B' && !sharp {
            Some(PitchClass::B)
        } else if letter == 'C' {
            Some(if sharp { PitchClass::CSharp } else { PitchClass::C })
        } else if letter == 'D' {
            Some(if sharp { PitchClass::DSharp } else { PitchClass::D })
        } else if letter == 'E' && !sharp {
            Some(PitchClass::E)
        } else if letter == 'F' {
            Some(if sharp { PitchClass::FSharp } else { PitchClass::F })
        } else if letter == 'G' {
            Some(if sharp { PitchClass::GSharp } else { PitchClass::G })
        } else {
            None
        }
    }

    /// The place of the pitch class in a registry's table.
    pub fn index(self) -> (i: usize)
        ensures
            i == pitch_index(self),
            i < 12,
    {
        match self {
            PitchClass::A => 0,
            PitchClass::ASharp => 1,
            PitchClass::B => 2,
            PitchClass::C => 3,
            PitchClass::CSharp => 4,
            PitchClass::D => 5,
            PitchClass::DSharp => 6,
            PitchClass::E => 7,
            PitchClass::F => 8,
            PitchClass::FSharp => 9,
            PitchClass::G => 10,
            PitchClass::GSharp => 11,
        }
    }
}

/// The frequencies of the twelve pitch classes under one tuning standard,
/// fixed once built.
pub struct NoteRegistry {
    standard: TuningStandard,
    frequencies: Vec<u32>,
}

impl NoteRegistry {
    /// The standard that the registry is tuned to.
    pub closed spec fn standard(&self) -> TuningStandard {
        self.standard
    }

    /// The invariant of every registry: it holds the table of its standard,
    /// and so defines all twelve pitch classes.
    pub closed spec fn wf(&self) -> bool {
        self.frequencies@ == standard_table(self.standard)
    }

    /// The registry of `standard`.
    pub fn for_standard(standard: TuningStandard) -> (registry: NoteRegistry)
        ensures
            registry.wf(),
            registry.standard() == standard,
    {
        match standard {
            TuningStandard::A440 => create_note_to_freq_map(),
            TuningStandard::A432 => create_note_to_freq_map_432(),
        }
    }

    /// The standard that the registry is tuned to.
    pub fn tuning(&self) -> (standard: TuningStandard)
        ensures
            standard == self.standard(),
    {
        self.standard
    }

    /// The frequency of `pitch`, in hundredths of a hertz.
    pub fn frequency(&self, pitch: PitchClass) -> (frequency: u32)
        requires
            self.wf(),
        ensures
            frequency == frequency_of(self.standard(), pitch),
            0 < frequency <= i32::MAX,
    {
        let i = pitch.index();
        proof {
            lemma_frequencies_positive(self.standard, pitch);
        }
        self.frequencies[i]
    }

    /// The frequency of the note that `name` names, or `None` where it
    /// names none.
    pub fn get(&self, name: &str) -> (r: Option<u32>)
        requires
            self.wf(),
        ensures
            match pitch_class_of(name@) {
                Some(pitch) => r == Some(frequency_of(self.standard(), pitch)),
                None => r is None,
            },
    {
        match PitchClass::parse(name) {
            Some(pitch) => Some(self.frequency(pitch)),
            None => None,
        }
    }

    /// The frequency of the note that `name` names; where it names none,
    /// the default of 440.00 Hz, so that playback goes on.
    pub fn resolve(&self, name: &str) -> (frequency: u32)
        requires
            self.wf(),
        ensures
            frequency == resolved_frequency(self.standard(), name@),
            0 < frequency <= i32::MAX,
    {
        match self.get(name) {
            Some(frequency) => {
                proof {
                    lemma_frequencies_positive(self.standard, pitch_class_of(name@)->Some_0);
                }
                frequency
            },
            None => DEFAULT_FREQUENCY,
        }
    }
}

/// The registry of the standard in which A is 440 Hz.
pub fn create_note_to_freq_map() -> (registry: NoteRegistry)
    ensures
        registry.wf(),
        registry.standard() == TuningStandard::A440,
{
    let frequencies: Vec<u32> = vec![
        44000u32, 46616u32, 49388u32, 52325u32, 55437u32, 58733u32,
        62225u32, 65925u32, 69846u32, 73999u32, 78399u32, 83061u32,
    ];
    proof {
        assert(frequencies@ =~= standard_table(TuningStandard::A440));
    }
    NoteRegistry { standard: TuningStandard::A440, frequencies }
}

/// The registry of the standard in which A is 432 Hz.
pub fn create_note_to_freq_map_432() -> (registry: NoteRegistry)
    ensures
        registry.wf(),
        registry.standard() == TuningStandard::A432,
{
    let frequencies: Vec<u32> = vec![
        43200u32, 45769u32, 48490u32, 51233u32, 54229u32, 57665u32,
        60839u32, 64586u32, 68472u32, 72538u32, 76882u32, 81551u32,
    ];
    proof {
        assert(frequencies@ =~= standard_table(TuningStandard::A432));
    }
    NoteRegistry { standard: TuningStandard::A432, frequencies }
}

/// The frequency, in hundredths of a hertz, of the note that `note_name`
/// names under the standard whose reference pitch is `tuning_standard`
/// hertz. An unsupported standard is refused; an unknown note name is not,
/// and resolves to the default of 440.00 Hz.
pub fn resolve(note_name: &str, tuning_standard: u32) -> (r: Result<u32, SynthError>)
    ensures
        match standard_of(tuning_standard as nat) {
            Some(standard) => r == Ok::<u32, SynthError>(
                resolved_frequency(standard, note_name@),
            ),
            None => r == Err::<u32, SynthError>(SynthError::UnsupportedStandard),
        },
{
    match TuningStandard::from_hertz(tuning_standard) {
        Ok(standard) => {
            let registry = NoteRegistry::for_standard(standard);
            Ok(registry.resolve(note_name))
        },
        Err(e) => Err(e),
    }
}

/// Every frequency of a standard is positive and fits the oscillator's
/// signed frequency.
pub proof fn lemma_frequencies_positive(standard: TuningStandard, pitch: PitchClass)
    ensures
        0 < frequency_of(standard, pitch) <= i32::MAX,
        0 <= pitch_index(pitch) < standard_table(standard).len() == 12,
{
}

/// A name names a pitch class exactly if it is that pitch class's name:
/// the twelve names resolve to twelve different pitch classes, and every
/// pitch class has one.
pub proof fn lemma_names_are_exact(name: Seq<char>, pitch: PitchClass)
    ensures
        pitch_class_of(name) == Some(pitch) <==> name == pitch.spec_name(),
{
    if pitch_class_of(name) == Some(pitch) {
        assert(name =~= pitch.spec_name());
    }
    if name == pitch.spec_name() {
        assert(pitch_class_of(name) == Some(pitch));
    }
}

} // verus!
