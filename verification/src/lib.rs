//! A monophonic wavetable synthesiser core in exact integer arithmetic.
//!
//! Amplitudes are signed 16-bit values, frequencies are counted in hundredths
//! of a hertz, and the oscillator's phase is a fraction whose denominator is
//! fixed by the sample rate, so that no operation rounds except the final
//! interpolation, which rounds down to the next 16-bit step.

pub mod error;
pub mod wavetable;
pub mod oscillator;
pub mod segment;
pub mod notes;
pub mod keys;
pub mod sequencer;
