//! Register-level I2C requests: payloads of register writes and values of
//! register reads.

use vstd::prelude::*;

verus! {

/// The value of a word register read: low byte first.
pub open spec fn le_word(lo: u8, hi: u8) -> u16 {
    (hi as int * 256 + lo as int) as u16
}

/// The value of a 16-bit register from the two bytes read, low byte first.
pub fn read_word_value(data: [u8; 2]) -> (r: u16)
    ensures
        r == le_word(data@[0], data@[1]),
{
    let hi = data[1];
    let lo = data[0];
    assert(((hi as u16) << 8u16) | (lo as u16) == hi as int * 256 + lo as int) by (bit_vector);
    ((hi as u16) << 8u16) | (lo as u16)
}

/// Payload of a byte register write: the register, then the value.
pub fn write_byte_payload(register: u8, data: u8) -> (r: [u8; 2])
    ensures
        r@ == seq![register, data],
{
    [register, data]
}

/// Payload of a word register write: the register, then the value's low
/// and high byte.
pub fn write_word_payload(register: u8, data: u16) -> (r: [u8; 3])
    ensures
        r@ == seq![register, (data % 256) as u8, (data / 256) as u8],
{
    let dbt_msb = (data >> 8u16) as u8;
    let dbt_lsb = data as u8;
    assert((data >> 8u16) as u8 == (data / 256) as u8 && data as u8 == (data % 256) as u8)
        by (bit_vector);
    [register, dbt_lsb, dbt_msb]
}

/// Reading back the bytes of a word write gives the word written.
pub proof fn lemma_word_payload_roundtrip(data: u16)
    ensures
        le_word((data % 256) as u8, (data / 256) as u8) == data,
{
}

} // verus!
