use vstd::prelude::*;
use vstd::arithmetic::div_mod::{lemma_fundamental_div_mod, lemma_mod_bound};
use core::time::Duration;
use crate::oscillator::{phase_after, Oscillator, OscillatorState};
use crate::wavetable::in_range;

verus! {

/// The nanoseconds in one second.
pub const NANOS_PER_SECOND: u64 = 1_000_000_000;

/// The whole seconds that `core::time::Duration::as_secs` gives for a
/// duration.
pub uninterp spec fn duration_secs(duration: Duration) -> nat;

/// The nanoseconds beyond the whole seconds that
/// `core::time::Duration::subsec_nanos` gives for a duration.
pub uninterp spec fn duration_subsec_nanos(duration: Duration) -> nat;

/// `core::time::Duration::as_secs`: the whole seconds of the duration. The
/// contract only gives the result its name.
pub assume_specification[ Duration::as_secs ](duration: &Duration) -> (secs: u64)
    ensures
        secs as nat == duration_secs(*duration),
;

/// `core::time::Duration::subsec_nanos`: the part of the duration beyond
/// its whole seconds, in nanoseconds. The contract names the result and
/// claims, as the function's documentation does, that it is less than one
/// billion.
pub assume_specification[ Duration::subsec_nanos ](duration: &Duration) -> (nanos: u32)
    ensures
        nanos as nat == duration_subsec_nanos(*duration),
        nanos < 1_000_000_000,
;

/// The length of a duration in nanoseconds.
pub open spec fn duration_nanos(duration: Duration) -> nat {
    duration_secs(duration) * 1_000_000_000 + duration_subsec_nanos(duration)
}

/// Whether `emitted` samples at `sample_rate` samples per second last at
/// least `limit_nanos` nanoseconds: `emitted / sample_rate >= limit_nanos / 10^9`,
/// cleared of fractions.
pub open spec fn elapsed_reaches(emitted: nat, sample_rate: nat, limit_nanos: nat) -> bool {
    emitted * 1_000_000_000 >= limit_nanos * sample_rate
}

/// The number of samples in a segment of `limit_nanos` nanoseconds:
/// `limit_nanos * sample_rate / 10^9`, rounded up.
pub open spec fn segment_len(limit_nanos: nat, sample_rate: nat) -> nat {
    ((limit_nanos * sample_rate + 999_999_999) / 1_000_000_000) as nat
}

/// `limit_nanos * sample_rate / 10^9`, rounded to the nearest whole number,
/// a half upwards.
pub open spec fn nearest_len(limit_nanos: nat, sample_rate: nat) -> nat {
    ((2 * (limit_nanos * sample_rate) + 1_000_000_000) / 2_000_000_000) as nat
}

/// What a bounded segment is, as plain values.
pub struct SegmentState {
    pub source: OscillatorState,
    pub limit_nanos: nat,
    pub emitted: nat,
}

impl SegmentState {
    /// A valid oscillator, a limit that a `Duration` can hold, and no more
    /// samples given than it takes to reach the limit.
    pub open spec fn wf(self) -> bool {
        &&& self.source.wf()
        &&& self.limit_nanos < 0x1_0000_0000_0000_0000 * 1_000_000_000
        &&& self.emitted <= self.len()
    }

    /// The segment has reached its duration and gives no more samples.
    pub open spec fn exhausted(self) -> bool {
        elapsed_reaches(self.emitted, self.source.sample_rate, self.limit_nanos)
    }

    /// The number of samples in the whole segment.
    pub open spec fn len(self) -> nat {
        segment_len(self.limit_nanos, self.source.sample_rate)
    }

    /// The segment after it gave `count` more samples.
    pub open spec fn after(self, count: nat) -> SegmentState {
        SegmentState {
            source: self.source.after(count),
            emitted: self.emitted + count,
            ..self
        }
    }
}

/// One note's audible window: an oscillator whose stream ends once the
/// samples given make up the duration. The time that has passed is the
/// count of samples over the sample rate, which is exact.
pub struct DurationSource {
    source: Oscillator,
    duration: Duration,
    limit_nanos: u128,
    emitted: u128,
}

impl View for DurationSource {
    type V = SegmentState;

    closed spec fn view(&self) -> SegmentState {
        SegmentState {
            source: self.source@,
            limit_nanos: self.limit_nanos as nat,
            emitted: self.emitted as nat,
        }
    }
}

impl DurationSource {
    /// The duration that the segment was made with.
    pub closed spec fn spec_duration(&self) -> Duration {
        self.duration
    }

    /// The invariant of every segment that `new` hands out.
    pub open spec fn wf(&self) -> bool {
        &&& self@.wf()
        &&& self@.limit_nanos == duration_nanos(self.spec_duration())
    }

    /// Bounds the stream of `source` to `duration`, with nothing given yet.
    pub fn new(source: Oscillator, duration: Duration) -> (segment: DurationSource)
        requires
            source.wf(),
        ensures
            segment.wf(),
            segment.spec_duration() == duration,
            segment@ == (SegmentState {
                source: source@,
                limit_nanos: duration_nanos(duration),
                emitted: 0,
            }),
    {
        let secs = duration.as_secs();
        let nanos = duration.subsec_nanos();
        let limit_nanos: u128 = (secs as u128) * 1_000_000_000 + (nanos as u128);
        let segment = DurationSource { source, duration, limit_nanos, emitted: 0 };
        proof {
            lemma_segment_len(segment@);
        }
        segment
    }

    /// Whether the samples given so far make up the duration.
    pub fn is_exhausted(&self) -> (done: bool)
        requires
            self.wf(),
        ensures
            done == self@.exhausted(),
    {
        let rate = self.source.sample_rate() as u128;
        proof {
            lemma_product_fits(self.limit_nanos as nat, rate as nat);
            lemma_segment_len(self@);
        }
        self.emitted * 1_000_000_000 >= self.limit_nanos * rate
    }

    /// The next sample of the oscillator while the duration is not reached;
    /// after that `None`, with nothing changed.
    pub fn next(&mut self) -> (r: Option<i16>)
        requires
            old(self).wf(),
        ensures
            final(self).wf(),
            final(self).spec_duration() == old(self).spec_duration(),
            old(self)@.exhausted() ==> r is None && final(self)@ == old(self)@,
            !old(self)@.exhausted() ==> r is Some && r->Some_0 == old(self)@.source.current()
                && in_range(r->Some_0) && final(self)@ == old(self)@.after(1),
    {
        if self.is_exhausted() {
            return None;
        }
        proof {
            lemma_product_fits(self.limit_nanos as nat, self.source@.sample_rate);
            lemma_segment_len(self@);
        }
        let sample = self.source.next_sample();
        self.emitted = self.emitted + 1;
        Some(sample)
    }

    /// Gives all the samples that are left, in order, and leaves the
    /// segment exhausted. Their number must fit a vector's length.
    pub fn drain(&mut self) -> (samples: Vec<i16>)
        requires
            old(self).wf(),
            old(self)@.len() - old(self)@.emitted <= usize::MAX,
        ensures
            final(self).wf(),
            final(self).spec_duration() == old(self).spec_duration(),
            final(self)@.exhausted(),
            samples@.len() == old(self)@.len() - old(self)@.emitted,
            final(self)@ == old(self)@.after(samples@.len()),
            forall|i: int|
                0 <= i < samples@.len() ==> #[trigger] samples@[i] == old(self)@.source.sample(
                    i as nat,
                ),
    {
        let mut samples: Vec<i16> = Vec::new();
        let ghost start = self@;
        proof {
            lemma_segment_len(start);
            assert(start.after(0) == start);
        }
        loop
            invariant
                self.wf(),
                start.wf(),
                self.spec_duration() == old(self).spec_duration(),
                start == old(self)@,
                self@ == start.after(samples@.len()),
                start.emitted + samples@.len() <= start.len(),
                forall|i: int|
                    0 <= i < samples@.len() ==> #[trigger] samples@[i] == start.source.sample(
                        i as nat,
                    ),
            ensures
                self@.exhausted(),
                start.emitted + samples@.len() == start.len(),
            decreases start.len() - start.emitted - samples@.len(),
        {
            let ghost before = self@;
            let ghost given = samples@.len();
            proof {
                lemma_segment_len(before);
            }
            match self.next() {
                None => {
                    break;
                },
                Some(sample) => {
                    samples.push(sample);
                    proof {
                        lemma_after_one_more(start.source, given);
                        lemma_segment_len(self@);
                    }
                },
            }
        }
        samples
    }

    /// The number of samples that are still to come.
    pub fn remaining(&self) -> (left: u128)
        requires
            self.wf(),
        ensures
            left == self@.len() - self@.emitted,
    {
        let rate = self.source.sample_rate() as u128;
        proof {
            lemma_product_fits(self.limit_nanos as nat, rate as nat);
            lemma_segment_len(self@);
        }
        let total: u128 = (self.limit_nanos * rate + 999_999_999) / 1_000_000_000;
        total - self.emitted
    }

    /// The number of channels: one.
    pub fn channels(&self) -> (n: u16)
        ensures
            n == 1,
    {
        self.source.channels()
    }

    /// The sample rate of the oscillator.
    pub fn sample_rate(&self) -> (rate: u32)
        ensures
            rate == self@.source.sample_rate,
    {
        self.source.sample_rate()
    }

    /// The length of the whole segment: the duration that it was made with.
    pub fn total_duration(&self) -> (duration: Option<Duration>)
        ensures
            duration == Some(self.spec_duration()),
    {
        Some(self.duration)
    }

    /// The number of samples until the channels or the sample rate change:
    /// unknown, as for the oscillator inside.
    pub fn current_frame_len(&self) -> (len: Option<usize>)
        ensures
            len is None,
    {
        self.source.current_frame_len()
    }

    /// The number of samples given so far.
    pub fn emitted(&self) -> (emitted: u128)
        ensures
            emitted == self@.emitted,
    {
        self.emitted
    }

    /// The oscillator inside.
    pub fn source(&self) -> (source: &Oscillator)
        ensures
            source@ == self@.source,
    {
        &self.source
    }
}

/// A limit that a `Duration` can hold, times a sample rate, stays far below
/// the largest 128-bit number.
proof fn lemma_product_fits(limit_nanos: nat, sample_rate: nat)
    requires
        limit_nanos < 0x1_0000_0000_0000_0000 * 1_000_000_000,
        sample_rate <= u32::MAX,
    ensures
        0 <= limit_nanos * sample_rate <= 0x1_0000_0000_0000_0000 * 1_000_000_000 * 0x1_0000_0000,
{
    assert(0 <= limit_nanos * sample_rate <= 0x1_0000_0000_0000_0000 * 1_000_000_000
        * 0x1_0000_0000) by (nonlinear_arith)
        requires
            0 <= limit_nanos < 0x1_0000_0000_0000_0000 * 1_000_000_000,
            0 <= sample_rate <= 0xffff_ffff,
    ;
}

/// One more sample after `count` is `count + 1` samples.
proof fn lemma_after_one_more(source: OscillatorState, count: nat)
    ensures
        source.after(count).after(1) == source.after(count + 1),
        source.after(count).current() == source.sample(count),
{
    reveal_with_fuel(phase_after, 2);
}

/// A segment ends exactly when it has given `len` samples: the elapsed
/// time reaches the limit at that count and at no smaller one. Up to that
/// count the elapsed time stays less than one sample period above the limit.
pub proof fn lemma_segment_len(segment: SegmentState)
    ensures
        segment.exhausted() <==> segment.emitted >= segment.len(),
        (segment.emitted * 1_000_000_000 < segment.limit_nanos * segment.source.sample_rate
            + 1_000_000_000) <==> segment.emitted <= segment.len(),
{
    let product = (segment.limit_nanos * segment.source.sample_rate) as int;
    assert(product >= 0) by (nonlinear_arith)
        requires
            product == segment.limit_nanos * segment.source.sample_rate,
    ;
    lemma_fundamental_div_mod(product + 999_999_999, 1_000_000_000);
    lemma_mod_bound(product + 999_999_999, 1_000_000_000);
}

/// The number of samples in a segment is the duration times the sample
/// rate, rounded to the nearest whole number, or one more.
pub proof fn lemma_segment_len_near(limit_nanos: nat, sample_rate: nat)
    ensures
        nearest_len(limit_nanos, sample_rate) <= segment_len(limit_nanos, sample_rate)
            <= nearest_len(limit_nanos, sample_rate) + 1,
{
    let product = (limit_nanos * sample_rate) as int;
    assert(product >= 0) by (nonlinear_arith)
        requires
            product == limit_nanos * sample_rate,
    ;
    lemma_fundamental_div_mod(product + 999_999_999, 1_000_000_000);
    lemma_mod_bound(product + 999_999_999, 1_000_000_000);
    lemma_fundamental_div_mod(2 * product + 1_000_000_000, 2_000_000_000);
    lemma_mod_bound(2 * product + 1_000_000_000, 2_000_000_000);
}

} // verus!
