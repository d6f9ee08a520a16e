//! Layout of one I2C write transfer as the words pushed into the TX FIFO
//! of the PIO I2C state machine.
//!
//! The state machine shifts its output register left (most significant
//! bit first): it takes the number of bytes from the top 24 bits of the
//! first word, then sends the address byte from its low 8 bits, and then
//! the data bytes, four per word, most significant byte first.

use vstd::prelude::*;

verus! {

/// Bus speed 400 kHz with 4 PIO clock cycles for each I2C high/low interval.
pub const SM_CLOCK_DIVIDER_1_6_MHZ: u32 = 1_600_000;

/// Bus speed 1 MHz with 4 PIO clock cycles for each I2C high/low interval.
pub const SM_CLOCK_DIVIDER_4_MHZ: u32 = 4_000_000;

/// Number of words of the transfer buffer: one header word and the data words.
pub const DATA_BUF_WORDS: usize = 34;

/// The largest number of data bytes one transfer can carry.
pub const MAX_WRITE_BYTES: usize = 132;

/// Byte `i` of `data`, or zero past its end.
pub open spec fn byte_or_zero(data: Seq<u8>, i: int) -> int {
    if 0 <= i < data.len() {
        data[i] as int
    } else {
        0
    }
}

/// Data word `k` of a transfer: bytes `4k .. 4k + 4`, most significant first,
/// zero-padded at the end.
pub open spec fn packed_word(data: Seq<u8>, k: int) -> u32 {
    (byte_or_zero(data, 4 * k) * 0x100_0000 + byte_or_zero(data, 4 * k + 1) * 0x1_0000
        + byte_or_zero(data, 4 * k + 2) * 0x100 + byte_or_zero(data, 4 * k + 3)) as u32
}

/// Number of data words needed for `len` bytes.
pub open spec fn data_word_count(len: nat) -> nat {
    (len + 3) / 4
}

/// The header word: the number of bytes on the bus (address byte
/// included) in the top 24 bits, the write address byte in the low 8.
pub open spec fn frame_header(dev_addr: u8, len: nat) -> u32 {
    ((len + 1) * 256 + (dev_addr as int * 2) % 256) as u32
}

/// The FIFO words of a write of `data` to the 7-bit address `dev_addr`.
pub open spec fn i2c_frame(dev_addr: u8, data: Seq<u8>) -> Seq<u32> {
    seq![frame_header(dev_addr, data.len())] + Seq::new(
        data_word_count(data.len()),
        |k: int| packed_word(data, k),
    )
}

/// Byte `j` (0 = first sent) of a FIFO word.
pub open spec fn word_byte(w: u32, j: int) -> int {
    if j == 0 {
        w as int / 0x100_0000
    } else if j == 1 {
        (w as int / 0x1_0000) % 256
    } else if j == 2 {
        (w as int / 0x100) % 256
    } else {
        w as int % 256
    }
}

proof fn lemma_combine_bytes(b0: u8, b1: u8, b2: u8, b3: u8)
    ensures
        ((b0 as u32) << 24u32) | ((b1 as u32) << 16u32) | ((b2 as u32) << 8u32) | (b3 as u32)
            == b0 as int * 0x100_0000 + b1 as int * 0x1_0000 + b2 as int * 0x100 + b3 as int,
{
    assert(((b0 as u32) << 24u32) | ((b1 as u32) << 16u32) | ((b2 as u32) << 8u32) | (b3 as u32)
        == b0 as int * 0x100_0000 + b1 as int * 0x1_0000 + b2 as int * 0x100 + b3 as int)
        by (bit_vector);
}

proof fn lemma_header_bits(n: u32, a: u8)
    requires
        n <= 0xff_ffff,
    ensures
        (n << 8u32) | ((a << 1u8) as u32) == n as int * 256 + (a as int * 2) % 256,
{
    assert((n << 8u32) | ((a << 1u8) as u32) == n as int * 256 + (a as int * 2) % 256)
        by (bit_vector)
        requires
            n <= 0xff_ffff,
    ;
}

/// The FIFO words of one I2C write transfer of `data` to `dev_addr`.
///
/// The transfer buffer holds one header word and 33 data words, so a
/// transfer carries at most 132 data bytes.
pub fn i2c_frame_words(dev_addr: u8, data: &[u8]) -> (r: Vec<u32>)
    requires
        data@.len() <= MAX_WRITE_BYTES,
    ensures
        r@ == i2c_frame(dev_addr, data@),
        r@.len() <= DATA_BUF_WORDS,
        r@.len() == 1 + (data@.len() + 3) / 4,
        4 * (r@.len() - 1) >= data@.len(),
        4 * (r@.len() - 1) < data@.len() + 4,
{
    let len = data.len();
    let no_of_bytes = (len + 1) as u32;
    let dev_addr_write = dev_addr << 1u8;
    let mut r: Vec<u32> = Vec::new();
    proof {
        lemma_header_bits(no_of_bytes, dev_addr);
    }
    r.push((no_of_bytes << 8u32) | (dev_addr_write as u32));
    let mut i: usize = 0;
    while i < len
        invariant
            len == data@.len(),
            len <= MAX_WRITE_BYTES,
            i % 4 == 0,
            i <= len + 3,
            r@.len() == 1 + i / 4,
            r@[0] == frame_header(dev_addr, data@.len()),
            forall|k: int| 0 <= k < i / 4 ==> #[trigger] r@[1 + k] == packed_word(data@, k),
        decreases len + 3 - i,
    {
        let b0 = data[i];
        let b1 = if i + 1 < len { data[i + 1] } else { 0 };
        let b2 = if i + 2 < len { data[i + 2] } else { 0 };
        let b3 = if i + 3 < len { data[i + 3] } else { 0 };
        proof {
            lemma_combine_bytes(b0, b1, b2, b3);
        }
        let w = ((b0 as u32) << 24u32) | ((b1 as u32) << 16u32) | ((b2 as u32) << 8u32) | (b3 as u32);
        assert(w == packed_word(data@, i as int / 4));
        r.push(w);
        i = i + 4;
    }
    assert(i / 4 == data_word_count(len as nat));
    assert forall|j: int| 0 <= j < r@.len() implies #[trigger] r@[j] == i2c_frame(dev_addr, data@)[j] by {
        if j > 0 {
            assert(r@[1 + (j - 1)] == packed_word(data@, j - 1));
        }
    }
    assert(r@ =~= i2c_frame(dev_addr, data@));
    r
}

/// Decoding a transfer gives back what was written: a transfer of `n`
/// data bytes is the header and exactly `ceil(n / 4)` data words (the
/// fewest that hold the data, so no word is left over to be read as the
/// header of another transfer), the header carries the byte count and the
/// write address, and byte `i` of the data is byte `i % 4` of data word
/// `i / 4`.
pub proof fn lemma_i2c_frame_decodes(dev_addr: u8, data: Seq<u8>)
    requires
        data.len() < 0xff_ffff,
    ensures
        i2c_frame(dev_addr, data).len() == 1 + (data.len() + 3) / 4,
        4 * (i2c_frame(dev_addr, data).len() - 1) >= data.len(),
        4 * (i2c_frame(dev_addr, data).len() - 1) < data.len() + 4,
        i2c_frame(dev_addr, data)[0] as int / 256 == data.len() + 1,
        i2c_frame(dev_addr, data)[0] as int % 256 == (dev_addr as int * 2) % 256,
        forall|i: int|
            0 <= i < data.len() ==> word_byte(#[trigger] i2c_frame(dev_addr, data)[1 + i / 4], i % 4)
                == data[i] as int,
{
    let f = i2c_frame(dev_addr, data);
    assert(f[0] == frame_header(dev_addr, data.len()));
    assert forall|i: int| 0 <= i < data.len() implies word_byte(#[trigger] f[1 + i / 4], i % 4)
        == data[i] as int by {
        let k = i / 4;
        assert(f[1 + k] == packed_word(data, k));
        let a = byte_or_zero(data, 4 * k);
        let b = byte_or_zero(data, 4 * k + 1);
        let c = byte_or_zero(data, 4 * k + 2);
        let d = byte_or_zero(data, 4 * k + 3);
        assert(0 <= a < 256 && 0 <= b < 256 && 0 <= c < 256 && 0 <= d < 256);
        let w = a * 0x100_0000 + b * 0x1_0000 + c * 0x100 + d;
        assert(w / 0x100_0000 == a && (w / 0x1_0000) % 256 == b && (w / 0x100) % 256 == c
            && w % 256 == d) by (nonlinear_arith)
            requires
                0 <= a < 256,
                0 <= b < 256,
                0 <= c < 256,
                0 <= d < 256,
                w == a * 0x100_0000 + b * 0x1_0000 + c * 0x100 + d,
        ;
    }
}

} // verus!
