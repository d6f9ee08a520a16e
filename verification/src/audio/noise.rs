//! Integer state of the noise generators: the xorshift32 generator and
//! the Voss-McCartney octave schedule of pink noise.

use vstd::prelude::*;

verus! {

/// Type of noise to generate.
#[derive(Debug, Clone, Copy, PartialEq, Eq)]
pub enum NoiseType {
    /// Uniform random noise, flat spectrum.
    White,
    /// Pink noise (-3 dB/octave), Voss-McCartney algorithm.
    Pink,
    /// Brown noise (-6 dB/octave), integrated white noise.
    Brown,
}

/// One Marsaglia xorshift32 step on a state (shift triple 13, 17, 5).
pub open spec fn xorshift_step(x: u32) -> u32 {
    let a = x ^ (x << 13u32);
    let b = a ^ (a >> 17u32);
    b ^ (b << 5u32)
}

/// The state from which a generator really steps: a zero state counts as one.
pub open spec fn nonzero_seed(x: u32) -> u32 {
    if x == 0 { 1 } else { x }
}

proof fn lemma_xorshift_step_nonzero(x: u32)
    requires
        x != 0,
    ensures
        xorshift_step(x) != 0,
{
    let a = x ^ (x << 13u32);
    let b = a ^ (a >> 17u32);
    assert(x != 0 ==> (x ^ (x << 13u32)) != 0) by (bit_vector);
    assert(a != 0 ==> (a ^ (a >> 17u32)) != 0) by (bit_vector);
    assert(b != 0 ==> (b ^ (b << 5u32)) != 0) by (bit_vector);
}

/// One step of the Marsaglia xorshift32 PRNG.
///
/// A zero state is reset to one before stepping; the new state is stored
/// back and returned.
pub fn xorshift32(state: &mut u32) -> (r: u32)
    ensures
        r == xorshift_step(nonzero_seed(*old(state))),
        *final(state) == r,
        r != 0,
{
    if *state == 0 {
        *state = 1;
    }
    let mut x = *state;
    x ^= x << 13u32;
    x ^= x >> 17u32;
    x ^= x << 5u32;
    *state = x;
    proof {
        lemma_xorshift_step_nonzero(nonzero_seed(*old(state)));
    }
    x
}

/// Simple xorshift32 PRNG for deterministic noise.
pub struct Xorshift32 {
    state: u32,
}

impl Xorshift32 {
    /// The current state of the generator.
    pub closed spec fn state_spec(&self) -> u32 {
        self.state
    }

    /// A generator's state is never zero.
    pub closed spec fn wf(&self) -> bool {
        self.state != 0
    }

    /// Create a generator; a zero seed is replaced by one.
    pub fn new(seed: u32) -> (r: Self)
        ensures
            r.wf(),
            r.state_spec() == nonzero_seed(seed),
    {
        Self { state: if seed == 0 { 1 } else { seed } }
    }

    /// The current state of the generator.
    pub fn state(&self) -> (r: u32)
        ensures
            r == self.state_spec(),
    {
        self.state
    }

    /// Step the generator and return its new state.
    pub fn next_u32(&mut self) -> (r: u32)
        requires
            old(self).wf(),
        ensures
            final(self).wf(),
            r == xorshift_step(old(self).state_spec()),
            final(self).state_spec() == r,
    {
        xorshift32(&mut self.state)
    }
}

/// Number of octaves for Voss-McCartney pink noise.
pub const PINK_OCTAVES: usize = 16;

/// The bits that change when a counter steps from `c - 1` to `c`
/// (wrapping): every bit from bit 0 up to the lowest set bit of `c`.
pub open spec fn changed_bits_spec(c: u32) -> u32 {
    c ^ (if c == 0 { u32::MAX } else { (c - 1) as u32 })
}

/// One step of the pink-noise octave schedule.
///
/// Advances the counter (wrapping) and returns the new counter together
/// with the bit mask of changed counter bits; octave `i` of the
/// Voss-McCartney generator is refreshed when bit `i` of the mask is set.
pub fn pink_schedule_step(counter: u32) -> (r: (u32, u32))
    ensures
        r.0 == (if counter == u32::MAX { 0 } else { counter + 1 }),
        r.1 == changed_bits_spec(r.0),
{
    let next = counter.wrapping_add(1);
    let changed_bits = next ^ next.wrapping_sub(1);
    (next, changed_bits)
}

/// Whether octave `i` is refreshed for a changed-bits mask.
pub fn octave_is_refreshed(changed_bits: u32, i: u32) -> (r: bool)
    requires
        i < 32,
    ensures
        r == (changed_bits & (1u32 << i) != 0),
{
    changed_bits & (1u32 << i) != 0
}

/// Voss-McCartney schedule: after the counter steps to `c`, octave `i`
/// is refreshed exactly when the low `i` bits of `c` are all zero, that
/// is every `2^i` samples.
pub proof fn lemma_pink_octave_refresh_period(c: u32, i: u32)
    requires
        i < 32,
    ensures
        (changed_bits_spec(c) & (1u32 << i) != 0) <==> (c & (((1u32 << i) - 1) as u32) == 0),
{
    let p: u32 = if c == 0 { u32::MAX } else { (c - 1) as u32 };
    assert((c ^ p) & (1u32 << i) != 0 <==> (c & (((1u32 << i) - 1) as u32) == 0))
        by (bit_vector)
        requires
            i < 32,
            p == if c == 0 { u32::MAX } else { (c - 1) as u32 },
    ;
}

/// The lowest octave is refreshed on every sample.
pub proof fn lemma_pink_lowest_octave_always_refreshed(c: u32)
    ensures
        changed_bits_spec(c) & 1u32 != 0,
{
    let p: u32 = if c == 0 { u32::MAX } else { (c - 1) as u32 };
    assert((c ^ p) & 1u32 != 0) by (bit_vector)
        requires
            p == if c == 0 { u32::MAX } else { (c - 1) as u32 },
    ;
}

} // verus!
