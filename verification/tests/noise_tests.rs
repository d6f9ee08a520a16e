use phr_rpcem::audio::noise::{
    octave_is_refreshed, pink_schedule_step, xorshift32, NoiseType, Xorshift32, PINK_OCTAVES,
};
use phr_rpcem::audio::oscillator::{is_noise, noise_type_for, oscillator_config, Waveform};
use phr_rpcem::audio::AudioErrorType;

#[test]
fn xorshift32_zero_state_is_reset_to_one() {
    let mut state = 0u32;
    let r = xorshift32(&mut state);
    assert_eq!(r, 270369);
    assert_eq!(state, 270369);
    let mut one = 1u32;
    assert_eq!(xorshift32(&mut one), 270369);
}

#[test]
fn xorshift32_sequence() {
    let mut state = 0u32;
    assert_eq!(xorshift32(&mut state), 0x42021);
    assert_eq!(xorshift32(&mut state), 0x4080601);
    assert_eq!(xorshift32(&mut state), 0x9dcca8c5);
    let mut s42 = 42u32;
    assert_eq!(xorshift32(&mut s42), 11355432);
}

#[test]
fn xorshift32_never_yields_zero() {
    let mut state = 0xdead_beefu32;
    for _ in 0..10_000 {
        assert_ne!(xorshift32(&mut state), 0);
    }
}

#[test]
fn xorshift_generator_seed_zero_becomes_one() {
    let g = Xorshift32::new(0);
    assert_eq!(g.state(), 1);
    let g = Xorshift32::new(7);
    assert_eq!(g.state(), 7);
}

#[test]
fn xorshift_generator_steps_like_free_function() {
    let mut g = Xorshift32::new(42);
    let mut s = 42u32;
    for _ in 0..5 {
        let a = g.next_u32();
        let b = xorshift32(&mut s);
        assert_eq!(a, b);
        assert_eq!(g.state(), s);
    }
}

#[test]
fn pink_schedule_counts_and_wraps() {
    assert_eq!(pink_schedule_step(0), (1, 1));
    assert_eq!(pink_schedule_step(1), (2, 3));
    assert_eq!(pink_schedule_step(3), (4, 7));
    assert_eq!(pink_schedule_step(7), (8, 0xf));
    assert_eq!(pink_schedule_step(u32::MAX), (0, u32::MAX));
}

#[test]
fn pink_octave_refresh_period() {
    // octave i is refreshed every 2^i samples
    let mut counter = 0u32;
    let mut refreshes = [0u32; PINK_OCTAVES];
    for _ in 0..1024 {
        let (next, changed) = pink_schedule_step(counter);
        counter = next;
        for i in 0..PINK_OCTAVES as u32 {
            if octave_is_refreshed(changed, i) {
                refreshes[i as usize] += 1;
            }
        }
    }
    for i in 0..11 {
        assert_eq!(refreshes[i], 1024 >> i);
    }
    assert_eq!(refreshes[11], 0);
}

#[test]
fn waveform_noise_generators() {
    assert_eq!(noise_type_for(Waveform::WhiteNoise), Some(NoiseType::White));
    assert_eq!(noise_type_for(Waveform::PinkNoise), Some(NoiseType::Pink));
    assert_eq!(noise_type_for(Waveform::BrownNoise), Some(NoiseType::Brown));
    assert_eq!(noise_type_for(Waveform::Sine), None);
    assert_eq!(noise_type_for(Waveform::Pulse), None);
    assert!(is_noise(Waveform::PinkNoise));
    assert!(!is_noise(Waveform::Triangle));
}

#[test]
fn oscillator_config_errors() {
    assert_eq!(
        oscillator_config(Waveform::Sine, false, true),
        Err(AudioErrorType::InvalidSampleRate)
    );
    assert_eq!(
        oscillator_config(Waveform::WhiteNoise, false, false),
        Err(AudioErrorType::InvalidSampleRate)
    );
    assert_eq!(
        oscillator_config(Waveform::Saw, true, false),
        Err(AudioErrorType::InvalidFrequency)
    );
    assert_eq!(oscillator_config(Waveform::Saw, true, true), Ok(None));
    assert_eq!(
        oscillator_config(Waveform::BrownNoise, true, false),
        Ok(Some(NoiseType::Brown))
    );
}
