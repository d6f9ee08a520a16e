use phr_rpcem::io::i2c::mpc4725::Mpc4725DeviceAddress;
use phr_rpcem::tasks::analogout::{calc_fifo_pwm_out_bits, update_pwm_out_values, PwmBitStream};
use phr_rpcem::tasks::oscillator::{get_tx_fifo_value, write_value_to_dac, write_values_to_dacs};
use phr_rpcem::tasks::PWM_VALUE_CYCLE_MAX;

#[test]
fn pwm_word_bits_and_count_down() {
    let mut out = [250u8, 0, 3, 5, 7, 1];
    let w = calc_fifo_pwm_out_bits(&mut out);
    assert_eq!(w, 0xbeeba698);
    assert_eq!(out, [245, 0, 0, 0, 2, 0]);
    let mut full = [255u8; 6];
    assert_eq!(calc_fifo_pwm_out_bits(&mut full), 0xfffffffc);
    assert_eq!(full, [250; 6]);
    let mut one = [1u8, 0, 0, 0, 0, 0];
    assert_eq!(calc_fifo_pwm_out_bits(&mut one), 0x80000000);
    assert_eq!(one, [0; 6]);
    let mut zero = [0u8; 6];
    assert_eq!(calc_fifo_pwm_out_bits(&mut zero), 0);
}

#[test]
fn pwm_levels_map_to_slots() {
    let mut cd = [0u8; 6];
    update_pwm_out_values(&mut cd, [1, 2, 3, 4, 5, 255]);
    assert_eq!(cd, [1, 2, 5, 250, 4, 3]);
}

fn high_slots_of(w: u32, channel: usize) -> u32 {
    (0..5).filter(|r| (w >> (31 - (6 * r + channel))) & 1 == 1).count() as u32
}

#[test]
fn pwm_cycle_duty_matches_levels() {
    let levels = [0u8, 1, 125, 249, 250, 7];
    let mut stream = PwmBitStream::new(levels);
    let mut last = u32::MAX;
    let mut counts = [0u32; 6];
    for _ in 0..PWM_VALUE_CYCLE_MAX {
        let pushed = stream.step(levels);
        // the word is handed out only when it changed; the state machine
        // repeats its last word otherwise
        if let Some(w) = pushed {
            assert_ne!(w, last);
            last = w;
        }
        for c in 0..6 {
            counts[c] += high_slots_of(last, c);
        }
    }
    let mut loaded = [0u8; 6];
    update_pwm_out_values(&mut loaded, levels);
    for c in 0..6 {
        assert_eq!(counts[c], loaded[c] as u32);
    }
}

#[test]
fn pwm_stream_skips_repeated_words() {
    let levels = [250u8; 6];
    let mut stream = PwmBitStream::new(levels);
    assert_eq!(stream.step(levels), Some(0xfffffffc));
    assert_eq!(stream.step(levels), None);
    let zero = [0u8; 6];
    let mut quiet = PwmBitStream::new(zero);
    assert_eq!(quiet.step(zero), Some(0));
    assert_eq!(quiet.step(zero), None);
}

#[test]
fn pwm_stream_reloads_after_cycle() {
    let mut stream = PwmBitStream::new([0; 6]);
    for _ in 0..PWM_VALUE_CYCLE_MAX {
        stream.step([250; 6]);
    }
    // the new levels take effect with the next cycle
    assert_eq!(stream.step([250; 6]), Some(0xfffffffc));
}

#[test]
fn dac_fifo_word() {
    assert_eq!(get_tx_fifo_value(Mpc4725DeviceAddress::Default, 0x0abc), 0x03C40ABC);
    assert_eq!(get_tx_fifo_value(Mpc4725DeviceAddress::Secondary, 0x1000), 0x03C61000);
    assert_eq!(get_tx_fifo_value(Mpc4725DeviceAddress::Default, 0), 0x03C40000);
}

#[test]
fn dac_zero_is_written_once() {
    let mut nz = true;
    assert_eq!(write_value_to_dac(Mpc4725DeviceAddress::Default, 0, &mut nz), Some(0x03C40000));
    assert!(!nz);
    assert_eq!(write_value_to_dac(Mpc4725DeviceAddress::Default, 0, &mut nz), None);
    assert!(!nz);
    assert_eq!(write_value_to_dac(Mpc4725DeviceAddress::Default, 5, &mut nz), Some(0x03C40005));
    assert!(nz);
    assert_eq!(write_value_to_dac(Mpc4725DeviceAddress::Default, 5, &mut nz), Some(0x03C40005));
}

#[test]
fn two_dacs_writes() {
    let mut nz1 = true;
    let mut nz2 = true;
    let w = write_values_to_dacs(
        Mpc4725DeviceAddress::Default,
        7,
        &mut nz1,
        Mpc4725DeviceAddress::Secondary,
        0,
        &mut nz2,
    );
    assert_eq!(w, vec![0x03C40007, 0x03C60000]);
    let w = write_values_to_dacs(
        Mpc4725DeviceAddress::Default,
        0,
        &mut nz1,
        Mpc4725DeviceAddress::Secondary,
        0,
        &mut nz2,
    );
    assert_eq!(w, vec![0x03C40000]);
    let w = write_values_to_dacs(
        Mpc4725DeviceAddress::Default,
        0,
        &mut nz1,
        Mpc4725DeviceAddress::Secondary,
        3,
        &mut nz2,
    );
    assert_eq!(w, vec![0x03C60003]);
    let w = write_values_to_dacs(
        Mpc4725DeviceAddress::Default,
        0,
        &mut nz1,
        Mpc4725DeviceAddress::Secondary,
        0,
        &mut nz2,
    );
    assert_eq!(w, vec![0x03C60000]);
    let w = write_values_to_dacs(
        Mpc4725DeviceAddress::Default,
        0,
        &mut nz1,
        Mpc4725DeviceAddress::Secondary,
        0,
        &mut nz2,
    );
    assert!(w.is_empty());
}
