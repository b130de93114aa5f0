use vstd::prelude::*;
use vstd::arithmetic::div_mod::{
    lemma_add_mod_noop_right, lemma_div_by_multiple, lemma_fundamental_div_mod,
    lemma_hoist_over_denominator, lemma_mod_multiples_basic, lemma_mod_self_0, lemma_small_mod,
};
use core::time::Duration;
use crate::error::SynthError;
use crate::wavetable::{in_range, valid_table, Wavetable};

verus! {

/// The number of phase units in one table step at `sample_rate` samples per
/// second. Frequencies are counted in hundredths of a hertz, so a hundred
/// times the sample rate makes every increment a whole number of units.
pub open spec fn resolution(sample_rate: nat) -> nat {
    100 * sample_rate
}

/// The number of phase units in one cycle of a table of `len` samples.
pub open spec fn period(len: nat, sample_rate: nat) -> nat {
    len * resolution(sample_rate)
}

/// The phase units to advance per sample for `frequency` hundredths of a
/// hertz: as a number of table steps it is `frequency * len / (100 * sample_rate)`.
pub open spec fn increment_for(frequency: nat, len: nat) -> nat {
    frequency * len
}

/// The linear interpolation of `table` at `phase` units, rounded down.
/// With `i0` the whole table steps in `phase` and `rest` the units beyond
/// them, it weighs `table[i0]` by `res - rest` and its successor, which
/// wraps to index 0, by `rest`.
pub open spec fn interpolate(table: Seq<i16>, phase: nat, res: nat) -> int
    recommends
        valid_table(table),
        res > 0,
        phase < table.len() * res,
{
    let i0 = phase as int / res as int;
    let i1 = (i0 + 1) % table.len() as int;
    let rest = phase as int % res as int;
    ((res - rest) * table[i0] + rest * table[i1]) / res as int
}

/// The phase one sample later, reduced into `[0, period)`.
pub open spec fn advance(phase: nat, increment: nat, period: nat) -> nat {
    (phase + increment) % period
}

/// The phase after `count` samples.
pub open spec fn phase_after(phase: nat, increment: nat, period: nat, count: nat) -> nat
    decreases count,
{
    if count == 0 {
        phase
    } else {
        advance(phase_after(phase, increment, period, (count - 1) as nat), increment, period)
    }
}

/// What an oscillator is, as plain values.
pub struct OscillatorState {
    pub sample_rate: nat,
    pub table: Seq<i16>,
    pub phase: nat,
    pub increment: nat,
}

impl OscillatorState {
    pub open spec fn resolution(self) -> nat {
        resolution(self.sample_rate)
    }

    pub open spec fn period(self) -> nat {
        period(self.table.len(), self.sample_rate)
    }

    /// A positive sample rate, a table that can be interpolated, and a
    /// phase within one cycle.
    pub open spec fn wf(self) -> bool {
        &&& 0 < self.sample_rate <= u32::MAX
        &&& valid_table(self.table)
        &&& self.phase < self.period()
        &&& self.increment <= i32::MAX * self.table.len()
    }

    /// The sample that the oscillator gives next.
    pub open spec fn current(self) -> int {
        interpolate(self.table, self.phase, self.resolution())
    }

    /// The oscillator after it gave `count` samples.
    pub open spec fn after(self, count: nat) -> OscillatorState {
        OscillatorState {
            phase: phase_after(self.phase, self.increment, self.period(), count),
            ..self
        }
    }

    /// The sample that the oscillator gives after `count` others.
    pub open spec fn sample(self, count: nat) -> int {
        self.after(count).current()
    }
}

/// A generator of samples: it reads a wavetable at a phase that each sample
/// advances by an increment set from the frequency. It never ends.
pub struct Oscillator {
    sample_rate: u32,
    table: Wavetable,
    phase: u128,
    increment: u128,
}

impl View for Oscillator {
    type V = OscillatorState;

    closed spec fn view(&self) -> OscillatorState {
        OscillatorState {
            sample_rate: self.sample_rate as nat,
            table: self.table@,
            phase: self.phase as nat,
            increment: self.increment as nat,
        }
    }
}

impl Oscillator {
    /// The invariant of every oscillator that `new` hands out.
    pub open spec fn wf(&self) -> bool {
        self@.wf()
    }

    /// An oscillator over `table` at `sample_rate` samples per second, at
    /// phase 0 and with increment 0. Refuses a sample rate of zero.
    pub fn new(sample_rate: u32, table: Wavetable) -> (r: Result<Oscillator, SynthError>)
        requires
            table.wf(),
        ensures
            sample_rate == 0 ==> r == Err::<Oscillator, SynthError>(SynthError::InvalidArgument),
            sample_rate > 0 ==> r is Ok && r->Ok_0.wf() && r->Ok_0@ == (OscillatorState {
                sample_rate: sample_rate as nat,
                table: table@,
                phase: 0,
                increment: 0,
            }),
    {
        if sample_rate == 0 {
            return Err(SynthError::InvalidArgument);
        }
        proof {
            assert(0 < table@.len() * (100 * sample_rate)) by (nonlinear_arith)
                requires
                    table@.len() >= 2,
                    sample_rate > 0,
            ;
        }
        Ok(Oscillator { sample_rate, table, phase: 0, increment: 0 })
    }

    /// Sets the increment for `frequency` hundredths of a hertz. Zero is
    /// accepted and freezes the phase; a negative frequency is refused and
    /// changes nothing.
    pub fn set_frequency(&mut self, frequency: i32) -> (r: Result<(), SynthError>)
        requires
            old(self).wf(),
        ensures
            final(self).wf(),
            frequency < 0 ==> r == Err::<(), SynthError>(SynthError::InvalidArgument)
                && final(self)@ == old(self)@,
            frequency >= 0 ==> r is Ok && final(self)@ == (OscillatorState {
                increment: increment_for(frequency as nat, old(self)@.table.len()),
                ..old(self)@
            }),
    {
        if frequency < 0 {
            return Err(SynthError::InvalidArgument);
        }
        let n = self.table.len();
        proof {
            assert(frequency * n <= i32::MAX * n <= i32::MAX * usize::MAX) by (nonlinear_arith)
                requires
                    0 <= frequency <= i32::MAX,
                    0 <= n <= usize::MAX,
            ;
        }
        self.increment = (frequency as u128) * (n as u128);
        Ok(())
    }

    /// The interpolated sample at the current phase, which stays.
    pub fn lerp(&self) -> (s: i16)
        requires
            self.wf(),
        ensures
            s == self@.current(),
            in_range(s),
    {
        let res: u128 = 100 * (self.sample_rate as u128);
        let n = self.table.len();
        let whole: u128 = self.phase / res;
        let rest: u128 = self.phase % res;
        proof {
            assert(whole < n) by (nonlinear_arith)
                requires
                    self.phase < n * res,
                    res > 0,
                    whole == self.phase / res,
            ;
        }
        let i0 = whole as usize;
        let i1 = if i0 + 1 == n {
            0
        } else {
            i0 + 1
        };
        proof {
            if i0 + 1 == n {
                lemma_mod_self_0(n as int);
            } else {
                lemma_small_mod((i0 + 1) as nat, n as nat);
            }
        }
        let t0 = self.table.get(i0) as i64;
        let t1 = self.table.get(i1) as i64;
        let w0 = (res - rest) as i64;
        let w1 = rest as i64;
        proof {
            assert(in_range(self.table@[i0 as int]));
            assert(in_range(self.table@[i1 as int]));
            lemma_weighted_bounds(w0 as int, w1 as int, t0 as int, t1 as int);
        }
        let sum: i64 = w0 * t0 + w1 * t1;
        let lifted: i64 = sum + (res as i64) * 32767;
        let quotient: u64 = (lifted as u64) / (res as u64);
        proof {
            lemma_hoist_over_denominator(sum as int, 32767, res as nat);
            lemma_floor_bounds(sum as int, res as int);
        }
        (quotient as i64 - 32767) as i16
    }

    /// Gives the sample at the current phase, then advances the phase by
    /// the increment and reduces it into one cycle.
    pub fn next_sample(&mut self) -> (s: i16)
        requires
            old(self).wf(),
        ensures
            final(self).wf(),
            s == old(self)@.current(),
            in_range(s),
            final(self)@ == old(self)@.after(1),
    {
        let s = self.lerp();
        let n = self.table.len();
        let res: u128 = 100 * (self.sample_rate as u128);
        proof {
            assert(n * res <= usize::MAX * (100 * u32::MAX)) by (nonlinear_arith)
                requires
                    0 <= n <= usize::MAX,
                    0 <= res <= 100 * u32::MAX,
            ;
            assert(self.increment <= i32::MAX * usize::MAX) by (nonlinear_arith)
                requires
                    self.increment <= i32::MAX * n,
                    0 <= n <= usize::MAX,
            ;
            assert(0 < n * res) by (nonlinear_arith)
                requires
                    n >= 2,
                    res > 0,
            ;
            reveal_with_fuel(phase_after, 2);
        }
        let cycle: u128 = (n as u128) * res;
        self.phase = (self.phase + self.increment) % cycle;
        s
    }

    /// The number of channels: one.
    pub fn channels(&self) -> (n: u16)
        ensures
            n == 1,
    {
        1
    }

    /// The number of samples until the channels or the sample rate change:
    /// unknown, since they never do.
    pub fn current_frame_len(&self) -> (len: Option<usize>)
        ensures
            len is None,
    {
        None
    }

    /// The length of the stream: unknown, since it never ends.
    pub fn total_duration(&self) -> (duration: Option<Duration>)
        ensures
            duration is None,
    {
        None
    }

    /// The sample rate that the oscillator was made with.
    pub fn sample_rate(&self) -> (rate: u32)
        ensures
            rate == self@.sample_rate,
    {
        self.sample_rate
    }

    /// The phase, in units of which `resolution` make one table step.
    pub fn phase(&self) -> (phase: u128)
        ensures
            phase == self@.phase,
    {
        self.phase
    }

    /// The units that each sample advances the phase by.
    pub fn increment(&self) -> (increment: u128)
        ensures
            increment == self@.increment,
    {
        self.increment
    }

    /// The number of phase units in one table step.
    pub fn resolution(&self) -> (res: u64)
        ensures
            res == self@.resolution(),
    {
        100 * (self.sample_rate as u64)
    }

    /// The table that the oscillator reads.
    pub fn table(&self) -> (table: &Wavetable)
        ensures
            table@ == self@.table,
    {
        &self.table
    }
}

/// Periodicity: a phase of exactly one cycle wraps to phase 0, where the
/// interpolated value is the table's first sample.
pub proof fn lemma_periodicity(table: Seq<i16>, res: nat)
    requires
        valid_table(table),
        res > 0,
    ensures
        (table.len() * res) % (table.len() * res) == 0,
        interpolate(table, (table.len() * res) % (table.len() * res), res) == table[0],
{
    assert(0 < table.len() * res) by (nonlinear_arith)
        requires
            table.len() >= 2,
            res > 0,
    ;
    lemma_mod_self_0((table.len() * res) as int);
    lemma_exact_at_integer_phase(table, 0, res);
    assert(0 * res == 0);
}

/// Interpolation is exact on the table's own points: at a phase of `k`
/// whole table steps the value is `table[k]`.
pub proof fn lemma_exact_at_integer_phase(table: Seq<i16>, k: nat, res: nat)
    requires
        valid_table(table),
        k < table.len(),
        res > 0,
    ensures
        interpolate(table, k * res, res) == table[k as int],
{
    let phase = (k * res) as int;
    lemma_div_by_multiple(k as int, res as int);
    lemma_mod_multiples_basic(k as int, res as int);
    assert(phase / res as int == k);
    assert(phase % res as int == 0);
    let i1 = (k as int + 1) % table.len() as int;
    let t0 = table[k as int] as int;
    let t1 = table[i1] as int;
    assert((res - 0) * t0 + 0 * t1 == t0 * res) by (nonlinear_arith);
    lemma_div_by_multiple_signed(t0, res as int);
}

/// An interpolated value lies between the two samples that it is taken
/// from, and so within full scale.
pub proof fn lemma_interpolate_between(table: Seq<i16>, phase: nat, res: nat)
    requires
        valid_table(table),
        res > 0,
        phase < table.len() * res,
    ensures
        ({
            let i0 = phase as int / res as int;
            let i1 = (i0 + 1) % table.len() as int;
            let low = if table[i0] <= table[i1] { table[i0] } else { table[i1] };
            let high = if table[i0] <= table[i1] { table[i1] } else { table[i0] };
            &&& 0 <= i0 < table.len()
            &&& 0 <= i1 < table.len()
            &&& low <= interpolate(table, phase, res) <= high
            &&& -32767 <= interpolate(table, phase, res) <= 32767
        }),
{
    let n = table.len() as int;
    let d = res as int;
    let i0 = phase as int / d;
    let i1 = (i0 + 1) % n;
    let rest = phase as int % d;
    assert(0 <= i0 < n) by (nonlinear_arith)
        requires
            0 <= phase < n * d,
            d > 0,
            i0 == phase as int / d,
    ;
    vstd::arithmetic::div_mod::lemma_mod_bound(i0 + 1, n);
    vstd::arithmetic::div_mod::lemma_mod_bound(phase as int, d);
    let t0 = table[i0] as int;
    let t1 = table[i1] as int;
    assert(in_range(table[i0]) && in_range(table[i1]));
    let low = if t0 <= t1 { t0 } else { t1 };
    let high = if t0 <= t1 { t1 } else { t0 };
    let sum = (d - rest) * t0 + rest * t1;
    assert(low * d <= sum <= high * d) by (nonlinear_arith)
        requires
            0 <= rest < d,
            low <= t0 <= high,
            low <= t1 <= high,
            sum == (d - rest) * t0 + rest * t1,
    ;
    assert(low <= sum / d <= high) by (nonlinear_arith)
        requires
            d > 0,
            low * d <= sum <= high * d,
    ;
}

/// `(t * d) / d` is `t`, also for a negative `t`.
proof fn lemma_div_by_multiple_signed(t: int, d: int)
    requires
        d > 0,
    ensures
        (t * d) / d == t,
{
    vstd::arithmetic::div_mod::lemma_div_multiples_vanish(t, d);
    assert(t * d == d * t) by (nonlinear_arith);
}

/// After `count` samples the phase is the start plus `count` increments,
/// reduced into one cycle.
pub proof fn lemma_phase_after(phase: nat, increment: nat, period: nat, count: nat)
    requires
        period > 0,
        phase < period,
    ensures
        phase_after(phase, increment, period, count) == (phase + count * increment) % period,
    decreases count,
{
    if count == 0 {
        assert(count * increment == 0) by (nonlinear_arith)
            requires
                count == 0,
        ;
        lemma_small_mod(phase, period);
    } else {
        let before = (count - 1) as nat;
        lemma_phase_after(phase, increment, period, before);
        let total = (phase + before * increment) as int;
        lemma_add_mod_noop_right(increment as int, total, period as int);
        assert(total + increment == phase + count * increment) by (nonlinear_arith)
            requires
                total == phase + before * increment,
                before == count - 1,
        ;
    }
}

/// One full cycle: at `frequency` hundredths of a hertz and `sample_rate`
/// samples per second, the least number of samples that spans one period of
/// the tone, `ceil(100 * sample_rate / frequency)`, advances the phase by
/// at least one cycle of the table and by less than one cycle and one
/// increment. Where the increment is no longer than a cycle, the phase is
/// then back within one increment of where it started.
pub proof fn lemma_full_cycle(frequency: nat, len: nat, sample_rate: nat)
    requires
        frequency > 0,
        sample_rate > 0,
        len >= 2,
    ensures
        ({
            let increment = increment_for(frequency, len);
            let cycle = period(len, sample_rate);
            let count = samples_per_cycle(frequency, sample_rate);
            &&& cycle <= count * increment < cycle + increment
            &&& phase_after(0, increment, cycle, count) == (count * increment) % cycle
            &&& increment <= cycle ==> phase_after(0, increment, cycle, count) == count * increment
                - cycle
        }),
{
    let increment = increment_for(frequency, len);
    let res = resolution(sample_rate);
    let cycle = period(len, sample_rate);
    let count = samples_per_cycle(frequency, sample_rate);
    let above = (res + frequency - 1) as int;
    lemma_fundamental_div_mod(above, frequency as int);
    vstd::arithmetic::div_mod::lemma_mod_bound(above, frequency as int);
    let rest = above % frequency as int;
    assert(frequency * count == above - rest);
    assert(res <= frequency * count < res + frequency);
    assert(cycle <= count * increment < cycle + increment) by (nonlinear_arith)
        requires
            res <= frequency * count < res + frequency,
            increment == frequency * len,
            cycle == len * res,
            len >= 2,
    ;
    assert(cycle > 0) by (nonlinear_arith)
        requires
            cycle == len * res,
            res == 100 * sample_rate,
            sample_rate > 0,
            len >= 2,
    ;
    lemma_phase_after(0, increment, cycle, count);
    if increment <= cycle {
        let over = (count * increment - cycle) as int;
        vstd::arithmetic::div_mod::lemma_fundamental_div_mod_converse(
            (count * increment) as int,
            cycle as int,
            1,
            over,
        );
    }
}

/// The least number of samples that spans one period of a tone of
/// `frequency` hundredths of a hertz: `100 * sample_rate / frequency`,
/// rounded up.
pub open spec fn samples_per_cycle(frequency: nat, sample_rate: nat) -> nat
    recommends
        frequency > 0,
{
    ((resolution(sample_rate) + frequency - 1) / frequency as int) as nat
}

/// With increment 0 the phase stays, and every sample is the one at that
/// phase; from phase 0 it is the table's first sample, for ever.
pub proof fn lemma_zero_frequency_constant(state: OscillatorState, count: nat)
    requires
        state.wf(),
        state.increment == 0,
    ensures
        state.after(count) == state,
        state.sample(count) == state.current(),
        state.phase == 0 ==> state.sample(count) == state.table[0],
{
    lemma_phase_after(state.phase, 0, state.period(), count);
    assert(count * 0 == 0) by (nonlinear_arith);
    lemma_small_mod(state.phase, state.period());
    if state.phase == 0 {
        assert(0 < state.resolution());
        lemma_exact_at_integer_phase(state.table, 0, state.resolution());
        assert(0 * state.resolution() == 0);
    }
}

/// The samples of an oscillator that has given one are those of the
/// oscillator before, from the second on.
pub proof fn lemma_stream_shift(state: OscillatorState, count: nat)
    requires
        state.wf(),
    ensures
        state.after(1).wf(),
        state.after(1).after(count) == state.after(count + 1),
        state.after(1).sample(count) == state.sample(count + 1),
    decreases count,
{
    reveal_with_fuel(phase_after, 2);
    vstd::arithmetic::div_mod::lemma_mod_bound(
        (state.phase + state.increment) as int,
        state.period() as int,
    );
    if count > 0 {
        lemma_stream_shift(state, (count - 1) as nat);
    }
}

/// Two weights that sum to `w0 + w1` keep a weighted sum of two amplitudes
/// within full scale times that sum.
proof fn lemma_weighted_bounds(w0: int, w1: int, t0: int, t1: int)
    requires
        0 <= w0,
        0 <= w1,
        -32767 <= t0 <= 32767,
        -32767 <= t1 <= 32767,
    ensures
        -32767 * w0 <= w0 * t0 <= 32767 * w0,
        -32767 * w1 <= w1 * t1 <= 32767 * w1,
        -32767 * (w0 + w1) <= w0 * t0 + w1 * t1 <= 32767 * (w0 + w1),
{
    assert(-32767 * w0 <= w0 * t0 <= 32767 * w0) by (nonlinear_arith)
        requires
            0 <= w0,
            -32767 <= t0 <= 32767,
    ;
    assert(-32767 * w1 <= w1 * t1 <= 32767 * w1) by (nonlinear_arith)
        requires
            0 <= w1,
            -32767 <= t1 <= 32767,
    ;
}

/// A sum within full scale times `res` has a quotient within full scale.
proof fn lemma_floor_bounds(sum: int, res: int)
    requires
        res > 0,
        -32767 * res <= sum <= 32767 * res,
    ensures
        -32767 <= sum / res <= 32767,
{
    assert(-32767 <= sum / res <= 32767) by (nonlinear_arith)
        requires
            res > 0,
            -32767 * res <= sum <= 32767 * res,
    ;
}

} // verus!
