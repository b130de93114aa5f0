use vstd::prelude::*;
use crate::error::SynthError;

verus! {

/// The amplitude that stands for 1.0; -`FULL_SCALE` stands for -1.0.
pub const FULL_SCALE: i16 = 32767;

/// A sequence of samples is one period of a waveform that can be
/// interpolated: at least two samples, each within full scale.
pub open spec fn valid_table(samples: Seq<i16>) -> bool {
    &&& samples.len() >= 2
    &&& forall|i: int| 0 <= i < samples.len() ==> in_range(#[trigger] samples[i])
}

/// An amplitude between -1.0 and 1.0.
pub open spec fn in_range(sample: i16) -> bool {
    -FULL_SCALE <= sample <= FULL_SCALE
}

/// One cycle of a waveform, fixed once built. Index `len` is index 0 again.
pub struct Wavetable {
    samples: Vec<i16>,
}

impl View for Wavetable {
    type V = Seq<i16>;

    closed spec fn view(&self) -> Seq<i16> {
        self.samples@
    }
}

impl Wavetable {
    /// The invariant of every table that `new` hands out.
    pub open spec fn wf(&self) -> bool {
        valid_table(self@)
    }

    /// Takes `samples` as one period. Refuses fewer than two samples, and
    /// any sample below -`FULL_SCALE`.
    pub fn new(samples: Vec<i16>) -> (r: Result<Wavetable, SynthError>)
        ensures
            valid_table(samples@) ==> r is Ok && r->Ok_0@ == samples@ && r->Ok_0.wf(),
            !valid_table(samples@) ==> r == Err::<Wavetable, SynthError>(
                SynthError::InvalidArgument,
            ),
    {
        if samples.len() < 2 {
            return Err(SynthError::InvalidArgument);
        }
        let mut i: usize = 0;
        while i < samples.len()
            invariant
                i <= samples.len(),
                forall|j: int| 0 <= j < i ==> in_range(#[trigger] samples@[j]),
            decreases samples.len() - i,
        {
            if samples[i] < -FULL_SCALE {
                return Err(SynthError::InvalidArgument);
            }
            i += 1;
        }
        Ok(Wavetable { samples })
    }

    /// The number of samples in one period.
    pub fn len(&self) -> (n: usize)
        ensures
            n == self@.len(),
    {
        self.samples.len()
    }

    /// The sample at `index`.
    pub fn get(&self, index: usize) -> (s: i16)
        requires
            index < self@.len(),
        ensures
            s == self@[index as int],
    {
        self.samples[index]
    }

    /// A second table with the same samples.
    pub fn duplicate(&self) -> (copy: Wavetable)
        ensures
            copy@ == self@,
    {
        let mut samples: Vec<i16> = Vec::new();
        let mut i: usize = 0;
        while i < self.samples.len()
            invariant
                i <= self.samples.len(),
                samples@ == self.samples@.subrange(0, i as int),
            decreases self.samples.len() - i,
        {
            samples.push(self.samples[i]);
            proof {
                assert(samples@ =~= self.samples@.subrange(0, i + 1));
            }
            i += 1;
        }
        proof {
            assert(samples@ =~= self.samples@);
        }
        Wavetable { samples }
    }
}

} // verus!
