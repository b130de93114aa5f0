use vstd::prelude::*;
use core::time::Duration;
use crate::error::SynthError;
use crate::notes::{resolved_frequency, NoteRegistry, TuningStandard};
use crate::oscillator::{increment_for, Oscillator, OscillatorState};
use crate::segment::{duration_nanos, DurationSource, SegmentState};
use crate::wavetable::{in_range, Wavetable};

verus! {

/// The sample rate of playback, in samples per second.
pub const PLAYBACK_SAMPLE_RATE: u32 = 44100;

/// A fresh oscillator over `table` that sounds the note `name` under
/// `standard`: at phase 0, with the increment of the note's frequency.
pub open spec fn note_state(
    standard: TuningStandard,
    name: Seq<char>,
    table: Seq<i16>,
    sample_rate: nat,
) -> OscillatorState {
    OscillatorState {
        sample_rate,
        table,
        phase: 0,
        increment: increment_for(resolved_frequency(standard, name) as nat, table.len()),
    }
}

/// The segment in which a fresh oscillator sounds the note `name` for
/// `limit_nanos` nanoseconds.
pub open spec fn note_segment_state(
    standard: TuningStandard,
    name: Seq<char>,
    table: Seq<i16>,
    sample_rate: nat,
    limit_nanos: nat,
) -> SegmentState {
    SegmentState {
        source: note_state(standard, name, table, sample_rate),
        limit_nanos,
        emitted: 0,
    }
}

/// A fresh oscillator over `wave_table` at `sample_rate`, set to the
/// frequency that `registry` resolves `note` to. An unknown note sounds at
/// the default frequency. Refuses a sample rate of zero.
pub fn note_oscillator(
    note: &str,
    wave_table: Wavetable,
    registry: &NoteRegistry,
    sample_rate: u32,
) -> (r: Result<Oscillator, SynthError>)
    requires
        wave_table.wf(),
        registry.wf(),
    ensures
        sample_rate == 0 ==> r == Err::<Oscillator, SynthError>(SynthError::InvalidArgument),
        sample_rate > 0 ==> r is Ok && r->Ok_0.wf() && r->Ok_0@ == note_state(
            registry.standard(),
            note@,
            wave_table@,
            sample_rate as nat,
        ),
{
    let frequency = registry.resolve(note);
    match Oscillator::new(sample_rate, wave_table) {
        Ok(mut oscillator) => {
            let set = oscillator.set_frequency(frequency as i32);
            assert(set is Ok);
            Ok(oscillator)
        },
        Err(e) => Err(e),
    }
}

/// The bounded segment of one note at the playback sample rate: a fresh
/// oscillator at the note's frequency, to be heard for `duration`.
pub fn note_segment(
    note: &str,
    wave_table: Wavetable,
    registry: &NoteRegistry,
    duration: Duration,
) -> (segment: DurationSource)
    requires
        wave_table.wf(),
        registry.wf(),
    ensures
        segment.wf(),
        segment.spec_duration() == duration,
        segment@ == note_segment_state(
            registry.standard(),
            note@,
            wave_table@,
            PLAYBACK_SAMPLE_RATE as nat,
            duration_nanos(duration),
        ),
{
    let frequency = registry.resolve(note);
    let made = Oscillator::new(PLAYBACK_SAMPLE_RATE, wave_table);
    let mut oscillator = made.unwrap();
    let set = oscillator.set_frequency(frequency as i32);
    assert(set is Ok);
    DurationSource::new(oscillator, duration)
}

/// The segments of a sequence of notes, in order, each heard for
/// `duration` on a table of its own with the samples of `wave_table`.
pub fn note_segments(
    notes: &Vec<&str>,
    duration: Duration,
    wave_table: &Wavetable,
    registry: &NoteRegistry,
) -> (segments: Vec<DurationSource>)
    requires
        wave_table.wf(),
        registry.wf(),
    ensures
        segments@.len() == notes@.len(),
        forall|i: int|
            0 <= i < notes@.len() ==> (#[trigger] segments@[i]).wf() && segments@[i].spec_duration()
                == duration && segments@[i]@ == note_segment_state(
                registry.standard(),
                notes@[i]@,
                wave_table@,
                PLAYBACK_SAMPLE_RATE as nat,
                duration_nanos(duration),
            ),
{
    let mut segments: Vec<DurationSource> = Vec::new();
    let mut i: usize = 0;
    while i < notes.len()
        invariant
            wave_table.wf(),
            registry.wf(),
            i <= notes@.len(),
            segments@.len() == i,
            forall|j: int|
                0 <= j < i ==> (#[trigger] segments@[j]).wf() && segments@[j].spec_duration()
                    == duration && segments@[j]@ == note_segment_state(
                    registry.standard(),
                    notes@[j]@,
                    wave_table@,
                    PLAYBACK_SAMPLE_RATE as nat,
                    duration_nanos(duration),
                ),
        decreases notes@.len() - i,
    {
        let segment = note_segment(notes[i], wave_table.duplicate(), registry, duration);
        segments.push(segment);
        i += 1;
    }
    segments
}

/// The segments of a sequence of notes, in order, each heard for the
/// duration given with it on a table of its own with the samples of
/// `wave_table`.
pub fn timed_note_segments(
    notes: &Vec<(&str, Duration)>,
    wave_table: &Wavetable,
    registry: &NoteRegistry,
) -> (segments: Vec<DurationSource>)
    requires
        wave_table.wf(),
        registry.wf(),
    ensures
        segments@.len() == notes@.len(),
        forall|i: int|
            0 <= i < notes@.len() ==> (#[trigger] segments@[i]).wf() && segments@[i].spec_duration()
                == notes@[i].1 && segments@[i]@ == note_segment_state(
                registry.standard(),
                notes@[i].0@,
                wave_table@,
                PLAYBACK_SAMPLE_RATE as nat,
                duration_nanos(notes@[i].1),
            ),
{
    let mut segments: Vec<DurationSource> = Vec::new();
    let mut i: usize = 0;
    while i < notes.len()
        invariant
            wave_table.wf(),
            registry.wf(),
            i <= notes@.len(),
            segments@.len() == i,
            forall|j: int|
                0 <= j < i ==> (#[trigger] segments@[j]).wf() && segments@[j].spec_duration()
                    == notes@[j].1 && segments@[j]@ == note_segment_state(
                    registry.standard(),
                    notes@[j].0@,
                    wave_table@,
                    PLAYBACK_SAMPLE_RATE as nat,
                    duration_nanos(notes@[j].1),
                ),
        decreases notes@.len() - i,
    {
        let segment = note_segment(notes[i].0, wave_table.duplicate(), registry, notes[i].1);
        segments.push(segment);
        i += 1;
    }
    segments
}

/// What a sequencer is, as plain values: `sounding` is the segment of the
/// note that sounds, `None` while the sequencer is idle.
pub struct SequencerState {
    pub standard: TuningStandard,
    pub table: Seq<i16>,
    pub sample_rate: nat,
    pub sounding: Option<SegmentState>,
}

/// A monophonic sequencer: idle, or sounding exactly one note until the
/// samples given make up the note's duration.
pub struct Sequencer {
    registry: NoteRegistry,
    table: Wavetable,
    sample_rate: u32,
    sounding: Option<DurationSource>,
}

impl View for Sequencer {
    type V = SequencerState;

    closed spec fn view(&self) -> SequencerState {
        SequencerState {
            standard: self.registry.standard(),
            table: self.table@,
            sample_rate: self.sample_rate as nat,
            sounding: match self.sounding {
                Some(segment) => Some(segment@),
                None => None,
            },
        }
    }
}

impl Sequencer {
    /// The invariant of every sequencer that `new` hands out.
    pub closed spec fn wf(&self) -> bool {
        &&& self.registry.wf()
        &&& self.table.wf()
        &&& self.sample_rate > 0
        &&& self.sounding is Some ==> self.sounding->Some_0.wf()
    }

    /// An idle sequencer that sounds notes of `registry` on `table` at
    /// `sample_rate` samples per second. Refuses a sample rate of zero.
    pub fn new(registry: NoteRegistry, table: Wavetable, sample_rate: u32) -> (r: Result<
        Sequencer,
        SynthError,
    >)
        requires
            registry.wf(),
            table.wf(),
        ensures
            sample_rate == 0 ==> r == Err::<Sequencer, SynthError>(SynthError::InvalidArgument),
            sample_rate > 0 ==> r is Ok && r->Ok_0.wf() && r->Ok_0@ == (SequencerState {
                standard: registry.standard(),
                table: table@,
                sample_rate: sample_rate as nat,
                sounding: None,
            }),
    {
        if sample_rate == 0 {
            return Err(SynthError::InvalidArgument);
        }
        Ok(Sequencer { registry, table, sample_rate, sounding: None })
    }

    /// Whether no note sounds.
    pub fn is_idle(&self) -> (idle: bool)
        ensures
            idle == (self@.sounding is None),
    {
        self.sounding.is_none()
    }

    /// Begins the note `note` for `duration` on a fresh oscillator. A note
    /// that still sounds is cut off: one note sounds at a time.
    pub fn start_note(&mut self, note: &str, duration: Duration)
        requires
            old(self).wf(),
        ensures
            final(self).wf(),
            final(self)@ == (SequencerState {
                sounding: Some(
                    note_segment_state(
                        old(self)@.standard,
                        note@,
                        old(self)@.table,
                        old(self)@.sample_rate,
                        duration_nanos(duration),
                    ),
                ),
                ..old(self)@
            }),
    {
        let made = note_oscillator(note, self.table.duplicate(), &self.registry, self.sample_rate);
        let oscillator = made.unwrap();
        self.sounding = Some(DurationSource::new(oscillator, duration));
    }

    /// The next sample of the note that sounds. Once the note has reached
    /// its duration the sequencer falls idle and gives `None`; idle, it
    /// gives `None` and stays idle.
    pub fn next_sample(&mut self) -> (r: Option<i16>)
        requires
            old(self).wf(),
        ensures
            final(self).wf(),
            match old(self)@.sounding {
                Some(segment) => if segment.exhausted() {
                    r is None && final(self)@ == (SequencerState { sounding: None, ..old(self)@ })
                } else {
                    r is Some && r->Some_0 == segment.source.current() && in_range(r->Some_0)
                        && final(self)@ == (SequencerState {
                        sounding: Some(segment.after(1)),
                        ..old(self)@
                    })
                },
                None => r is None && final(self)@ == old(self)@,
            },
    {
        let current = self.sounding.take();
        match current {
            None => None,
            Some(mut segment) => {
                let r = segment.next();
                if r.is_some() {
                    self.sounding = Some(segment);
                }
                r
            },
        }
    }
}

} // verus!
