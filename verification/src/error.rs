use vstd::prelude::*;

verus! {

/// Why an operation of the synthesiser refused its input.
#[derive(Clone, Copy, Debug, PartialEq, Eq, Structural)]
pub enum SynthError {
    /// A sample rate of zero, a table of fewer than two samples or with a
    /// sample out of range, or a negative frequency.
    InvalidArgument,
    /// A tuning standard other than the supported ones.
    UnsupportedStandard,
}

} // verus!
