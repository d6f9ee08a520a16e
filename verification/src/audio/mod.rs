//! Audio generation: noise and oscillator decisions.

pub mod noise;
pub mod oscillator;

use vstd::prelude::*;

verus! {

/// Reasons for which an oscillator cannot be created or retuned.
#[derive(Debug, Clone, Copy, PartialEq, Eq)]
pub enum AudioErrorType {
    InvalidFrequency,
    InvalidSampleRate,
}

} // verus!
