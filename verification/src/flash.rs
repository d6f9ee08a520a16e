//! Board identity from the flash chip's unique id.

use vstd::prelude::*;

verus! {

/// Size of the flash chip in bytes.
pub const FLASH_SIZE: usize = 2097152;

/// Byte `k` of `v`, least significant first.
pub open spec fn le_byte(v: u64, k: int) -> u8 {
    ((v as int / pow256(k)) % 256) as u8
}

/// `256^k`.
pub open spec fn pow256(k: int) -> int
    decreases k,
{
    if k <= 0 {
        1
    } else {
        256 * pow256(k - 1)
    }
}

/// The integer of eight bytes, least significant first.
pub open spec fn u64_from_le(b: Seq<u8>) -> int {
    b[0] + 256 * (b[1] + 256 * (b[2] + 256 * (b[3] + 256 * (b[4] + 256 * (b[5] + 256 * (b[6] + 256
        * b[7]))))))
}

/// The integer of eight bytes, most significant first.
pub open spec fn u64_from_be(b: Seq<u8>) -> int {
    b[7] + 256 * (b[6] + 256 * (b[5] + 256 * (b[4] + 256 * (b[3] + 256 * (b[2] + 256 * (b[1] + 256
        * b[0]))))))
}

/// `u64::from_ne_bytes`: the integer whose in-memory bytes are `b` in the
/// target's byte order, which is little or big endian.
#[verifier::external_body]
fn u64_from_ne_bytes(b: [u8; 8]) -> (r: u64)
    ensures
        r as int == u64_from_le(b@) || r as int == u64_from_be(b@),
{
    u64::from_ne_bytes(b)
}

/// The 64-bit board id of a flash unique id: its bytes read as one
/// integer in the target's byte order.
pub fn flash_uid(unique_id_bytes: [u8; 8]) -> (r: u64)
    ensures
        r as int == u64_from_le(unique_id_bytes@) || r as int == u64_from_be(unique_id_bytes@),
{
    u64_from_ne_bytes(unique_id_bytes)
}

/// Stand-in unique id when the flash cannot be read: the bytes of a
/// microsecond timestamp, least significant first.
pub fn unique_id_from_micros(micros: u64) -> (r: [u8; 8])
    ensures
        forall|k: int| 0 <= k < 8 ==> #[trigger] r@[k] == le_byte(micros, k),
{
    let mut unique_id_bytes: [u8; 8] = [0; 8];
    let mut m = micros;
    let mut k: usize = 0;
    while k < 8
        invariant
            k <= 8,
            m as int == micros as int / pow256(k as int),
            forall|j: int| 0 <= j < k ==> #[trigger] unique_id_bytes@[j] == le_byte(micros, j),
        decreases 8 - k,
    {
        assert(m as u8 == (m % 256) as u8) by (bit_vector);
        unique_id_bytes[k] = m as u8;
        proof {
            assert(pow256(k as int + 1) == 256 * pow256(k as int));
            assert(pow256(k as int) > 0) by {
                lemma_pow256_pos(k as int);
            }
            lemma_div_div(micros as int, pow256(k as int));
            assert((m >> 8u64) == m / 256) by (bit_vector);
        }
        m = m >> 8u64;
        k += 1;
    }
    unique_id_bytes
}

proof fn lemma_pow256_pos(k: int)
    ensures
        pow256(k) > 0,
    decreases k,
{
    if k > 0 {
        lemma_pow256_pos(k - 1);
    }
}

proof fn lemma_div_div(x: int, p: int)
    requires
        x >= 0,
        p > 0,
    ensures
        (x / p) / 256 == x / (256 * p),
{
    vstd::arithmetic::div_mod::lemma_div_denominator(x, p, 256);
    assert(p * 256 == 256 * p) by (nonlinear_arith);
}

} // verus!
