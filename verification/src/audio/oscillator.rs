//! Oscillator set-up decisions: waveform kinds, which waveforms are
//! driven by a noise generator, and which error creation reports.

use vstd::prelude::*;

use super::noise::NoiseType;
use super::AudioErrorType;

verus! {

/// Waveform type for an oscillator.
#[derive(Debug, Clone, Copy, PartialEq, Eq)]
pub enum Waveform {
    /// Sine wave.
    Sine,
    /// Band-limited sawtooth wave (PolyBLEP).
    Saw,
    /// Band-limited square wave (PolyBLEP).
    Square,
    /// Triangle wave (integrated square).
    Triangle,
    /// Band-limited pulse wave with variable width (PolyBLEP).
    Pulse,
    /// White noise.
    WhiteNoise,
    /// Pink noise (Voss-McCartney).
    PinkNoise,
    /// Brown noise (integrated white).
    BrownNoise,
}

/// Whether a waveform is produced by a noise generator.
pub open spec fn is_noise_spec(w: Waveform) -> bool {
    w is WhiteNoise || w is PinkNoise || w is BrownNoise
}

/// The noise generator that drives a waveform, if any.
pub open spec fn noise_type_spec(w: Waveform) -> Option<NoiseType> {
    match w {
        Waveform::WhiteNoise => Some(NoiseType::White),
        Waveform::PinkNoise => Some(NoiseType::Pink),
        Waveform::BrownNoise => Some(NoiseType::Brown),
        _ => None,
    }
}

/// Only the three noise waveforms are driven by a noise generator, each by
/// its own kind; the tonal waveforms (sine, saw, square, triangle, pulse)
/// get none and have their frequency checked.
pub proof fn lemma_only_noise_waveforms_get_noise(w: Waveform)
    ensures
        is_noise_spec(w) <==> (w is WhiteNoise || w is PinkNoise || w is BrownNoise),
        (w is Sine || w is Saw || w is Square || w is Triangle || w is Pulse) ==> !is_noise_spec(w)
            && noise_type_spec(w) is None,
        w is WhiteNoise ==> noise_type_spec(w) == Some(NoiseType::White),
        w is PinkNoise ==> noise_type_spec(w) == Some(NoiseType::Pink),
        w is BrownNoise ==> noise_type_spec(w) == Some(NoiseType::Brown),
{
}

/// Seed of the noise generators that oscillators create.
pub const NOISE_SEED: u32 = 42;

/// Whether a waveform is produced by a noise generator.
pub fn is_noise(waveform: Waveform) -> (r: bool)
    ensures
        r == is_noise_spec(waveform),
        r <==> (waveform is WhiteNoise || waveform is PinkNoise || waveform is BrownNoise),
{
    match waveform {
        Waveform::WhiteNoise | Waveform::PinkNoise | Waveform::BrownNoise => true,
        _ => false,
    }
}

/// The noise generator type that an oscillator of this waveform creates
/// (and re-creates when it finds none), or `None` for tonal waveforms.
pub fn noise_type_for(waveform: Waveform) -> (r: Option<NoiseType>)
    ensures
        r == noise_type_spec(waveform),
        r is Some <==> is_noise_spec(waveform),
        waveform is WhiteNoise ==> r == Some(NoiseType::White),
        waveform is PinkNoise ==> r == Some(NoiseType::Pink),
        waveform is BrownNoise ==> r == Some(NoiseType::Brown),
        (waveform is Sine || waveform is Saw || waveform is Square || waveform is Triangle
            || waveform is Pulse) ==> r is None,
{
    match waveform {
        Waveform::WhiteNoise => Some(NoiseType::White),
        Waveform::PinkNoise => Some(NoiseType::Pink),
        Waveform::BrownNoise => Some(NoiseType::Brown),
        _ => None,
    }
}

/// The outcome of creating an oscillator, given whether its sample rate
/// and its frequency passed validation.
///
/// An invalid sample rate is reported first; the frequency is checked only
/// for tonal waveforms. On success the noise generator type to attach is
/// returned.
pub fn oscillator_config(
    waveform: Waveform,
    sample_rate_valid: bool,
    frequency_valid: bool,
) -> (r: Result<Option<NoiseType>, AudioErrorType>)
    ensures
        !sample_rate_valid ==> r == Err::<Option<NoiseType>, AudioErrorType>(
            AudioErrorType::InvalidSampleRate,
        ),
        sample_rate_valid && !is_noise_spec(waveform) && !frequency_valid ==> r == Err::<
            Option<NoiseType>,
            AudioErrorType,
        >(AudioErrorType::InvalidFrequency),
        r is Ok <==> (sample_rate_valid && (is_noise_spec(waveform) || frequency_valid)),
        r is Ok ==> r == Ok::<Option<NoiseType>, AudioErrorType>(noise_type_spec(waveform)),
        (waveform is Sine || waveform is Saw || waveform is Square || waveform is Triangle
            || waveform is Pulse) ==> r == (if !sample_rate_valid {
            Err::<Option<NoiseType>, AudioErrorType>(AudioErrorType::InvalidSampleRate)
        } else if !frequency_valid {
            Err::<Option<NoiseType>, AudioErrorType>(AudioErrorType::InvalidFrequency)
        } else {
            Ok::<Option<NoiseType>, AudioErrorType>(None)
        }),
{
    if !sample_rate_valid {
        return Err(AudioErrorType::InvalidSampleRate);
    }
    if !is_noise(waveform) && !frequency_valid {
        return Err(AudioErrorType::InvalidFrequency);
    }
    Ok(noise_type_for(waveform))
}

} // verus!
