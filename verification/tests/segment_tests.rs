use std::time::Duration;
use wavetable_synth::error::SynthError;
use wavetable_synth::notes::{create_note_to_freq_map, create_note_to_freq_map_432};
use wavetable_synth::oscillator::Oscillator;
use wavetable_synth::segment::DurationSource;
use wavetable_synth::sequencer::{
    note_oscillator, note_segment, note_segments, timed_note_segments, Sequencer,
    PLAYBACK_SAMPLE_RATE,
};
use wavetable_synth::wavetable::Wavetable;

fn ramp_table() -> Wavetable {
    Wavetable::new(vec![0, 1000, 2000, 3000, 2000, 1000, 0, -1000]).unwrap()
}

fn oscillator(rate: u32, frequency: i32) -> Oscillator {
    let mut osc = Oscillator::new(rate, ramp_table()).unwrap();
    osc.set_frequency(frequency).unwrap();
    osc
}

fn count(segment: &mut DurationSource) -> u64 {
    let mut n = 0;
    while let Some(_) = segment.next() {
        n += 1;
    }
    n
}

#[test]
fn new_segment_has_given_nothing() {
    let segment = DurationSource::new(oscillator(44100, 44000), Duration::new(2, 5));
    assert_eq!(segment.emitted(), 0);
    assert_eq!(segment.total_duration(), Some(Duration::new(2, 5)));
    assert_eq!(segment.current_frame_len(), None);
    assert_eq!(segment.sample_rate(), 44100);
    assert_eq!(segment.channels(), 1);
    assert_eq!(segment.source().increment(), 44000 * 8);
    assert!(!segment.is_exhausted());
    // 2.000000005 s at 44100 samples per second, rounded up
    assert_eq!(segment.remaining(), 88201);
}

#[test]
fn two_seconds_at_44100_give_88200_samples() {
    let mut segment = DurationSource::new(oscillator(44100, 44000), Duration::from_secs(2));
    assert_eq!(segment.remaining(), 88200);
    assert_eq!(count(&mut segment), 88200);
    assert!(segment.is_exhausted());
    assert_eq!(segment.emitted(), 88200);
    assert_eq!(segment.remaining(), 0);
    let phase = segment.source().phase();
    assert_eq!(segment.next(), None);
    assert_eq!(segment.next(), None);
    assert_eq!(segment.emitted(), 88200);
    assert_eq!(segment.source().phase(), phase);
}

#[test]
fn fractional_sample_counts_round_up() {
    // 1 ms at 44100 is 44.1 samples
    let mut segment = DurationSource::new(oscillator(44100, 100), Duration::from_millis(1));
    assert_eq!(count(&mut segment), 45);
    // 1.5 samples
    let mut segment = DurationSource::new(oscillator(3, 100), Duration::from_millis(500));
    assert_eq!(count(&mut segment), 2);
    // one nanosecond is reached by the first sample
    let mut segment = DurationSource::new(oscillator(1, 100), Duration::from_nanos(1));
    assert_eq!(count(&mut segment), 1);
}

#[test]
fn sample_count_is_within_one_of_nearest() {
    for (nanos, rate) in [(1_000_000u64, 44100u32), (333_333_333, 48000), (999_999_999, 7),
        (2_000_000_000, 44100), (1, 1), (123_456_789, 22050)] {
        let mut segment = DurationSource::new(oscillator(rate, 100), Duration::from_nanos(nanos));
        let n = count(&mut segment) as i128;
        let exact = (nanos as f64) * (rate as f64) / 1e9;
        let nearest = exact.round() as i128;
        assert!((n - nearest).abs() <= 1);
        assert!(n as f64 >= exact && (n as f64) < exact + 1.0);
    }
}

#[test]
fn zero_duration_gives_no_sample() {
    let mut segment = DurationSource::new(oscillator(44100, 44000), Duration::new(0, 0));
    assert!(segment.is_exhausted());
    assert_eq!(segment.remaining(), 0);
    assert_eq!(segment.next(), None);
    assert_eq!(segment.emitted(), 0);
    assert_eq!(segment.drain(), Vec::<i16>::new());
}

#[test]
fn segment_gives_the_samples_of_its_oscillator() {
    let mut plain = oscillator(8000, 44000);
    let mut segment = DurationSource::new(oscillator(8000, 44000), Duration::from_millis(10));
    for _ in 0..80 {
        assert_eq!(segment.next(), Some(plain.next_sample()));
    }
    assert_eq!(segment.next(), None);
}

#[test]
fn drain_gives_what_is_left() {
    let mut plain = oscillator(8000, 44000);
    let mut segment = DurationSource::new(oscillator(8000, 44000), Duration::from_millis(10));
    for _ in 0..30 {
        assert_eq!(segment.next(), Some(plain.next_sample()));
    }
    assert_eq!(segment.remaining(), 50);
    let rest = segment.drain();
    assert_eq!(rest.len(), 50);
    for s in rest {
        assert_eq!(s, plain.next_sample());
    }
    assert!(segment.is_exhausted());
    assert_eq!(segment.emitted(), 80);
    assert_eq!(segment.drain().len(), 0);
}

#[test]
fn long_durations_do_not_overflow() {
    let mut segment = DurationSource::new(oscillator(u32::MAX, 100), Duration::MAX);
    assert!(!segment.is_exhausted());
    let total = (Duration::MAX.as_nanos() * (u32::MAX as u128) + 999_999_999) / 1_000_000_000;
    assert_eq!(segment.remaining(), total);
    assert!(segment.next().is_some());
    assert_eq!(segment.remaining(), total - 1);
}

#[test]
fn note_oscillator_sets_resolved_frequency() {
    let registry = create_note_to_freq_map();
    let osc = note_oscillator("C#", ramp_table(), &registry, 48000).unwrap();
    assert_eq!(osc.increment(), 55437 * 8);
    assert_eq!(osc.phase(), 0);
    assert_eq!(osc.sample_rate(), 48000);
    let osc = note_oscillator("?", ramp_table(), &registry, 48000).unwrap();
    assert_eq!(osc.increment(), 44000 * 8);
    assert_eq!(
        note_oscillator("A", ramp_table(), &registry, 0).err(),
        Some(SynthError::InvalidArgument)
    );
}

#[test]
fn note_segment_plays_at_44100() {
    let registry = create_note_to_freq_map_432();
    let mut segment = note_segment("A", ramp_table(), &registry, Duration::from_millis(100));
    assert_eq!(PLAYBACK_SAMPLE_RATE, 44100);
    assert_eq!(segment.sample_rate(), 44100);
    assert_eq!(segment.source().increment(), 43200 * 8);
    assert_eq!(segment.total_duration(), Some(Duration::from_millis(100)));
    assert_eq!(count(&mut segment), 4410);
}

#[test]
fn note_segments_follow_the_notes_in_order() {
    let registry = create_note_to_freq_map();
    let table = ramp_table();
    let notes = vec!["A", "C", "H", "G#"];
    let mut segments = note_segments(&notes, Duration::from_millis(1), &table, &registry);
    assert_eq!(segments.len(), 4);
    let expected = [44000u128, 52325, 44000, 83061];
    for (segment, frequency) in segments.iter_mut().zip(expected) {
        assert_eq!(segment.source().increment(), frequency * 8);
        assert_eq!(segment.source().phase(), 0);
        assert_eq!(segment.emitted(), 0);
        assert_eq!(count(segment), 45);
    }
    assert_eq!(note_segments(&vec![], Duration::from_secs(1), &table, &registry).len(), 0);
}

#[test]
fn sequencer_rejects_zero_sample_rate() {
    let made = Sequencer::new(create_note_to_freq_map(), ramp_table(), 0);
    assert_eq!(made.err(), Some(SynthError::InvalidArgument));
}

#[test]
fn sequencer_sounds_one_note_then_falls_idle() {
    let mut sequencer = Sequencer::new(create_note_to_freq_map(), ramp_table(), 8000).unwrap();
    assert!(sequencer.is_idle());
    assert_eq!(sequencer.next_sample(), None);
    assert!(sequencer.is_idle());

    sequencer.start_note("E", Duration::from_millis(5));
    assert!(!sequencer.is_idle());
    let mut plain = oscillator(8000, 65925);
    for _ in 0..40 {
        assert_eq!(sequencer.next_sample(), Some(plain.next_sample()));
        assert!(!sequencer.is_idle());
    }
    assert_eq!(sequencer.next_sample(), None);
    assert!(sequencer.is_idle());
    assert_eq!(sequencer.next_sample(), None);
}

#[test]
fn sequencer_new_note_replaces_the_sounding_one() {
    let mut sequencer = Sequencer::new(create_note_to_freq_map(), ramp_table(), 8000).unwrap();
    sequencer.start_note("A", Duration::from_secs(1));
    for _ in 0..10 {
        assert!(sequencer.next_sample().is_some());
    }
    sequencer.start_note("D", Duration::from_millis(1));
    let mut plain = oscillator(8000, 58733);
    for _ in 0..8 {
        assert_eq!(sequencer.next_sample(), Some(plain.next_sample()));
    }
    assert_eq!(sequencer.next_sample(), None);
    assert!(sequencer.is_idle());
}

#[test]
fn timed_note_segments_take_each_duration() {
    let registry = create_note_to_freq_map_432();
    let table = ramp_table();
    let notes = vec![("G", Duration::from_millis(1)), ("x", Duration::from_millis(2)),
        ("F#", Duration::new(0, 0))];
    let mut segments = timed_note_segments(&notes, &table, &registry);
    assert_eq!(segments.len(), 3);
    assert_eq!(segments[0].source().increment(), 76882 * 8);
    assert_eq!(segments[1].source().increment(), 44000 * 8);
    assert_eq!(segments[2].source().increment(), 72538 * 8);
    assert_eq!(segments[1].total_duration(), Some(Duration::from_millis(2)));
    assert_eq!(count(&mut segments[0]), 45);
    assert_eq!(count(&mut segments[1]), 89);
    assert_eq!(count(&mut segments[2]), 0);
}
