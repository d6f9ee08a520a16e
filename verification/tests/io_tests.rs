use phr_rpcem::io::i2c::i2cio::{read_word_value, write_byte_payload, write_word_payload};
use phr_rpcem::io::i2c::i2cpio::{i2c_frame_words, MAX_WRITE_BYTES};
use phr_rpcem::io::i2c::mpc4725::{Mpc4725, Mpc4725DeviceAddress};

#[test]
fn i2c_frame_header_and_words() {
    assert_eq!(i2c_frame_words(0x3C, &[0x80, 0x81, 0x7f]), vec![0x478, 0x80817f00]);
    assert_eq!(i2c_frame_words(0x3C, &[]), vec![0x178]);
    // the address is shifted left in a byte: its top bit is lost
    assert_eq!(i2c_frame_words(0xff, &[9]), vec![0x2fe, 0x09000000]);
}

#[test]
fn i2c_frame_largest_transfer() {
    let data: Vec<u8> = (0..MAX_WRITE_BYTES).map(|i| i as u8).collect();
    let words = i2c_frame_words(0x62, &data);
    assert_eq!(words.len(), 34);
    assert_eq!(words[0], (133 << 8) | 0xC4);
    assert_eq!(words[1], 0x00010203);
    assert_eq!(words[33], 0x80818283);
}

#[test]
fn i2c_frame_decodes_back() {
    let data: Vec<u8> = vec![0xde, 0xad, 0xbe, 0xef, 0x01, 0x02, 0x03];
    let words = i2c_frame_words(0x3D, &data);
    assert_eq!(words[0] >> 8, data.len() as u32 + 1);
    assert_eq!(words[0] & 0xff, 0x7A);
    let mut decoded = Vec::new();
    for w in &words[1..] {
        decoded.extend_from_slice(&w.to_be_bytes());
    }
    decoded.truncate(data.len());
    assert_eq!(decoded, data);
}

#[test]
fn mpc4725_addresses() {
    assert_eq!(Mpc4725DeviceAddress::Default.value(), 0x62);
    assert_eq!(Mpc4725DeviceAddress::Secondary.value(), 0x63);
    assert_eq!(Mpc4725DeviceAddress::default(), Mpc4725DeviceAddress::Default);
    assert_eq!(Mpc4725::new(Mpc4725DeviceAddress::Secondary).address(), 0x63);
}

#[test]
fn mpc4725_general_commands() {
    let dac = Mpc4725::new(Mpc4725DeviceAddress::Default);
    assert_eq!(dac.reset(), [0x00, 0x06]);
    assert_eq!(dac.wakeup(), [0x00, 0x09]);
}

#[test]
fn mpc4725_fast_write() {
    let dac = Mpc4725::new(Mpc4725DeviceAddress::Default);
    assert_eq!(dac.write_dac_value_fast(0x0abc), [0x0a, 0xbc]);
    assert_eq!(dac.write_dac_value_fast(0xfabc), [0x0a, 0xbc]);
    assert_eq!(dac.write_dac_value_fast(0), [0x00, 0x00]);
    assert_eq!(dac.write_dac_value_fast(4095), [0x0f, 0xff]);
}

#[test]
fn mpc4725_regular_write() {
    let dac = Mpc4725::new(Mpc4725DeviceAddress::Default);
    assert_eq!(dac.write_dac_value_regular(0x0abc), [0x40, 0x0a, 0xc0]);
    assert_eq!(dac.write_dac_value_regular(0x1234), [0x40, 0x12, 0x40]);
}

#[test]
fn register_word_round_trip() {
    assert_eq!(read_word_value([0x34, 0x12]), 0x1234);
    assert_eq!(write_word_payload(5, 0x1234), [5, 0x34, 0x12]);
    let p = write_word_payload(9, 0xbeef);
    assert_eq!(read_word_value([p[1], p[2]]), 0xbeef);
    assert_eq!(write_byte_payload(0x20, 0x07), [0x20, 0x07]);
}
