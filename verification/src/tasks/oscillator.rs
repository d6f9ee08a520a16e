//! DAC updates of the oscillator: which MCP4725 writes a sample causes,
//! and the TX FIFO words of the PIO I2C state machine that drives the DACs.
//!
//! That state machine takes the byte count from the top byte of a word
//! and then shifts out the address byte and the two value bytes.

use vstd::prelude::*;

use crate::io::i2c::mpc4725::{device_addr_value, Mpc4725DeviceAddress};

verus! {

/// Size of the pre-rendered sample buffer of the oscillator task.
pub const SAMPLE_BUF_SIZE: usize = 50000;

/// The TX FIFO word of a fast-mode write of `dac_val` to a DAC: byte
/// count 3, the write address byte, then the value's high and low byte.
pub open spec fn tx_fifo_value(dac_addr: Mpc4725DeviceAddress, dac_val: u16) -> u32 {
    (0x0300_0000 + device_addr_value(dac_addr) as int * 2 * 0x1_0000 + dac_val as int) as u32
}

/// The TX FIFO word of a fast-mode write of `dac_val` to a DAC.
pub fn get_tx_fifo_value(dac_addr: Mpc4725DeviceAddress, dac_val: u16) -> (r: u32)
    ensures
        r == tx_fifo_value(dac_addr, dac_val),
{
    let a = dac_addr.value();
    let dac_addr = (a as u32) << 1u32;
    let data_byte_1 = ((dac_val >> 8u16) as u8) as u32;
    let data_byte_2 = ((dac_val & 0xff) as u8) as u32;
    assert((3u32 << 24u32) | ((((a as u32) << 1u32)) << 16u32) | ((((dac_val >> 8u16) as u8) as u32) << 8u32)
        | (((dac_val & 0xff) as u8) as u32) == 0x0300_0000 + a as int * 2 * 0x1_0000 + dac_val as int)
        by (bit_vector)
        requires
            a <= 0x7f,
    ;
    (3u32 << 24u32) | (dac_addr << 16u32) | (data_byte_1 << 8u32) | data_byte_2
}

/// Decoding a DAC word gives back the write: three bytes follow, the
/// address byte is the device address shifted left (write bit clear), and
/// the two value bytes are the value's high and low byte.
pub proof fn lemma_tx_fifo_value_decodes(dac_addr: Mpc4725DeviceAddress, dac_val: u16)
    ensures
        tx_fifo_value(dac_addr, dac_val) as int / 0x100_0000 == 3,
        (tx_fifo_value(dac_addr, dac_val) as int / 0x1_0000) % 256 == device_addr_value(dac_addr) * 2,
        (tx_fifo_value(dac_addr, dac_val) as int / 0x100) % 256 == dac_val as int / 256,
        tx_fifo_value(dac_addr, dac_val) as int % 256 == dac_val as int % 256,
{
    let a = device_addr_value(dac_addr) as int * 2;
    let v = dac_val as int;
    let w = 0x0300_0000 + a * 0x1_0000 + v;
    assert(a < 256);
    assert(w / 0x100_0000 == 3 && (w / 0x1_0000) % 256 == a && (w / 0x100) % 256 == v / 256 && w % 256
        == v % 256) by (nonlinear_arith)
        requires
            0 <= a < 256,
            0 <= v < 0x1_0000,
            w == 0x0300_0000 + a * 0x1_0000 + v,
    ;
}

/// The write a DAC gets for a new value, and whether its output is then
/// non-zero: every non-zero value is written; a zero is written once,
/// right after a non-zero output, and not again while the value stays zero.
pub open spec fn dac_update(dac_val: u16, dac_is_non_zero: bool) -> (Option<u16>, bool) {
    if dac_val != 0 {
        (Some(dac_val), true)
    } else if dac_is_non_zero {
        (Some(0u16), false)
    } else {
        (None, false)
    }
}

fn dac_value_update(dac_val: u16, dac_is_non_zero: &mut bool) -> (r: Option<u16>)
    ensures
        (r, *final(dac_is_non_zero)) == dac_update(dac_val, *old(dac_is_non_zero)),
{
    if dac_val != 0 {
        *dac_is_non_zero = true;
        Some(dac_val)
    } else if *dac_is_non_zero {
        *dac_is_non_zero = false;
        Some(0)
    } else {
        None
    }
}

/// The word to push for a new value of one DAC, if it needs a write.
pub fn write_value_to_dac(dac_addr: Mpc4725DeviceAddress, dac_val: u16, dac_is_non_zero: &mut bool) -> (r:
    Option<u32>)
    ensures
        *final(dac_is_non_zero) == dac_update(dac_val, *old(dac_is_non_zero)).1,
        r == (match dac_update(dac_val, *old(dac_is_non_zero)).0 {
            Some(v) => Some(tx_fifo_value(dac_addr, v)),
            None => None::<u32>,
        }),
{
    match dac_value_update(dac_val, dac_is_non_zero) {
        Some(v) => Some(get_tx_fifo_value(dac_addr, v)),
        None => None,
    }
}

/// The words to push for new values of two DACs: the writes each DAC
/// needs, the first DAC's before the second's.
pub fn write_values_to_dacs(
    dac_1_addr: Mpc4725DeviceAddress,
    dac_1_val: u16,
    dac_1_is_non_zero: &mut bool,
    dac_2_addr: Mpc4725DeviceAddress,
    dac_2_val: u16,
    dac_2_is_non_zero: &mut bool,
) -> (r: Vec<u32>)
    ensures
        *final(dac_1_is_non_zero) == dac_update(dac_1_val, *old(dac_1_is_non_zero)).1,
        *final(dac_2_is_non_zero) == dac_update(dac_2_val, *old(dac_2_is_non_zero)).1,
        r@ == (match dac_update(dac_1_val, *old(dac_1_is_non_zero)).0 {
            Some(v) => seq![tx_fifo_value(dac_1_addr, v)],
            None => Seq::<u32>::empty(),
        }) + (match dac_update(dac_2_val, *old(dac_2_is_non_zero)).0 {
            Some(v) => seq![tx_fifo_value(dac_2_addr, v)],
            None => Seq::<u32>::empty(),
        }),
{
    let dac_1_val = dac_value_update(dac_1_val, dac_1_is_non_zero);
    let dac_2_val = dac_value_update(dac_2_val, dac_2_is_non_zero);
    let mut r: Vec<u32> = Vec::new();
    match dac_1_val {
        Some(v) => r.push(get_tx_fifo_value(dac_1_addr, v)),
        None => {},
    }
    match dac_2_val {
        Some(v) => r.push(get_tx_fifo_value(dac_2_addr, v)),
        None => {},
    }
    r
}

/// A DAC that has been written zero is not written again while its value
/// stays zero, and a non-zero value is always written.
pub proof fn lemma_dac_zero_written_once(dac_is_non_zero: bool, v: u16)
    ensures
        dac_update(0, dac_update(0, dac_is_non_zero).1).0 is None,
        v != 0 ==> dac_update(v, dac_is_non_zero).0 == Some(v),
        dac_update(v, dac_is_non_zero).1 == (v != 0),
{
}

} // verus!
