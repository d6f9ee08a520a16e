//! PWM bit stream of the six analog outputs.
//!
//! The PIO state machine shifts six pins out per PIO cycle; each TX FIFO
//! word carries five such six-bit slots (30 bits, left aligned). Every
//! output has a count-down of the slots it is still high in the current
//! PWM cycle of 250 slots (50 words).

use vstd::prelude::*;

use super::{PWM_TX_FIFO_VALUES, PWM_VALUE_CYCLE_MAX, PWM_VALUE_MAX};

verus! {

/// Slot `k` of a word (0 = first shifted out) for counts `c`: output
/// `k % 6` is high in round `k / 6` when its count exceeds the round.
pub open spec fn slot_bit(c: Seq<u8>, k: int) -> u32 {
    if c[k % 6] > k / 6 {
        1
    } else {
        0
    }
}

/// Whether bit `k` counted from the most significant end of `w` is set.
pub open spec fn word_bit(w: u32, k: int) -> bool {
    (w >> ((31 - k) as u32)) & 1 == 1
}

/// Count left after one word: `min(c, 5)` slots were used.
pub open spec fn count_after_word(c: u8) -> u8 {
    if c > PWM_TX_FIFO_VALUES {
        (c - PWM_TX_FIFO_VALUES) as u8
    } else {
        0
    }
}

/// Bit `k` (0 = first shifted in) of an accumulator holding `n` bits.
pub open spec fn acc_bit(a: u32, n: int, k: int) -> u32 {
    (a >> ((n - 1 - k) as u32)) & 1
}

proof fn lemma_shift_in(a: u32, b: u32, n: int)
    requires
        b <= 1,
        0 <= n < 30,
        a < (1u32 << (n as u32)),
    ensures
        ((a << 1u32) | b) < (1u32 << ((n + 1) as u32)),
        acc_bit((a << 1u32) | b, n + 1, n) == b,
        forall|k: int| 0 <= k < n ==> #[trigger] acc_bit((a << 1u32) | b, n + 1, k) == acc_bit(a, n, k),
{
    let nn = n as u32;
    let x = (a << 1u32) | b;
    assert((x >> 0u32) & 1 == x & 1) by (bit_vector);
    assert(((a << 1u32) | b) < (1u32 << ((nn + 1) as u32))) by (bit_vector)
        requires
            b <= 1,
            nn < 30,
            a < (1u32 << nn),
    ;
    assert(((a << 1u32) | b) & 1 == b) by (bit_vector)
        requires
            b <= 1,
    ;
    assert forall|k: int| 0 <= k < n implies #[trigger] acc_bit((a << 1u32) | b, n + 1, k) == acc_bit(a, n, k) by {
        let j = (n - 1 - k) as u32;
        assert(j < 30 ==> (((a << 1u32) | b) >> ((j + 1) as u32)) & 1 == (a >> j) & 1) by (bit_vector)
            requires
                b <= 1,
        ;
    }
}

proof fn lemma_final_shift(a: u32)
    requires
        a < (1u32 << 30u32),
    ensures
        (a << 2u32) & 3 == 0,
        forall|k: int| 0 <= k < 30 ==> #[trigger] word_bit(a << 2u32, k) == (acc_bit(a, 30, k) == 1),
{
    assert((a << 2u32) & 3 == 0) by (bit_vector);
    assert forall|k: int| 0 <= k < 30 implies #[trigger] word_bit(a << 2u32, k) == (acc_bit(a, 30, k) == 1) by {
        let kk = k as u32;
        assert(kk < 30 ==> (((a << 2u32) >> ((31 - kk) as u32)) & 1) == (a >> ((29 - kk) as u32)) & 1)
            by (bit_vector)
            requires
                a < (1u32 << 30u32),
        ;
    }
}

/// The TX FIFO word of the next five PWM slots, counting the outputs down.
///
/// In each of the five rounds every output that still has slots left is
/// high and uses one; the word holds the 30 slot bits from its most
/// significant end (round by round, outputs in array order), and its two
/// lowest bits are clear.
pub fn calc_fifo_pwm_out_bits(out: &mut [u8; 6]) -> (r: u32)
    ensures
        forall|k: int| 0 <= k < 30 ==> #[trigger] word_bit(r, k) == (slot_bit(old(out)@, k) == 1),
        r & 3 == 0,
        forall|i: int| 0 <= i < 6 ==> #[trigger] final(out)@[i] == count_after_word(old(out)@[i]),
{
    let ghost c = out@;
    let mut pwm_out_bits: u32 = 0;
    let ghost mut n: int = 0;
    proof {
        assert(0u32 < (1u32 << 0u32)) by (bit_vector);
    }
    let mut round: u8 = 0;
    while round < PWM_TX_FIFO_VALUES
        invariant
            out@.len() == 6,
            c.len() == 6,
            round <= 5,
            n == 6 * round,
            pwm_out_bits < (1u32 << (n as u32)),
            forall|j: int| 0 <= j < 6 ==> #[trigger] out@[j] == (if c[j] > round { (c[j] - round) as u8 } else { 0u8 }),
            forall|k: int| 0 <= k < n ==> #[trigger] acc_bit(pwm_out_bits, n, k) == slot_bit(c, k),
        decreases 5 - round,
    {
        let mut i: usize = 0;
        while i < 6
            invariant
                out@.len() == 6,
                c.len() == 6,
                round < 5,
                i <= 6,
                n == 6 * round + i,
                pwm_out_bits < (1u32 << (n as u32)),
                forall|j: int|
                    0 <= j < 6 ==> #[trigger] out@[j] == (if c[j] > round + (if j < i { 1int } else { 0int }) {
                        (c[j] - round - (if j < i { 1int } else { 0int })) as u8
                    } else {
                        0u8
                    }),
                forall|k: int| 0 <= k < n ==> #[trigger] acc_bit(pwm_out_bits, n, k) == slot_bit(c, k),
            decreases 6 - i,
        {
            let out_bit: u32 = if out[i] > 0 {
                out[i] -= 1;
                1
            } else {
                0
            };
            let ghost prev = pwm_out_bits;
            proof {
                lemma_shift_in(prev, out_bit, n);
                assert((6 * round + i) % 6 == i && (6 * round + i) / 6 == round) by (nonlinear_arith)
                    requires
                        i < 6,
                ;
                assert(out_bit == slot_bit(c, n));
            }
            pwm_out_bits = (pwm_out_bits << 1u32) | out_bit;
            proof {
                assert forall|k: int| 0 <= k < n + 1 implies #[trigger] acc_bit(pwm_out_bits, n + 1, k) == slot_bit(c, k) by {
                    if k < n {
                        assert(acc_bit(pwm_out_bits, n + 1, k) == acc_bit(prev, n, k));
                    }
                }
                n = n + 1;
            }
            i += 1;
        }
        round += 1;
    }
    proof {
        assert(n == 30);
        lemma_final_shift(pwm_out_bits);
    }
    pwm_out_bits << 2u32
}

/// A level clamped to the PWM range.
pub open spec fn pwm_level(v: u8) -> u8 {
    if v < PWM_VALUE_MAX { v } else { PWM_VALUE_MAX }
}

/// Count-downs of a new PWM cycle from the levels of outputs 1 to 6.
///
/// The slots of the word are ordered out1, out2, out5, out6, out4, out3:
/// count-down index 2 takes output 5, 3 takes output 6, 4 takes output 4
/// and 5 takes output 3.
pub open spec fn count_down_from_levels(levels: Seq<u8>) -> Seq<u8> {
    seq![
        pwm_level(levels[0]),
        pwm_level(levels[1]),
        pwm_level(levels[4]),
        pwm_level(levels[5]),
        pwm_level(levels[3]),
        pwm_level(levels[2]),
    ]
}

fn min_level(v: u8) -> (r: u8)
    ensures
        r == pwm_level(v),
{
    if v < PWM_VALUE_MAX { v } else { PWM_VALUE_MAX }
}

/// Load the count-downs of a new PWM cycle from the current levels of
/// outputs 1 to 6 (each clamped to the PWM range).
pub fn update_pwm_out_values(out_pwm_count_down: &mut [u8; 6], levels: [u8; 6])
    ensures
        final(out_pwm_count_down)@ == count_down_from_levels(levels@),
{
    out_pwm_count_down[0] = min_level(levels[0]);
    out_pwm_count_down[1] = min_level(levels[1]);
    out_pwm_count_down[5] = min_level(levels[2]);
    out_pwm_count_down[4] = min_level(levels[3]);
    out_pwm_count_down[2] = min_level(levels[4]);
    out_pwm_count_down[3] = min_level(levels[5]);
    assert(out_pwm_count_down@ =~= count_down_from_levels(levels@));
}

/// Count left after `t` words of a cycle that started at `c`.
pub open spec fn count_after_words(c: u8, t: nat) -> u8
    decreases t,
{
    if t == 0 {
        c
    } else {
        count_after_word(count_after_words(c, (t - 1) as nat))
    }
}

/// Number of the five rounds of a word in which an output with count
/// `c` is high.
pub open spec fn rounds_high(c: u8) -> int {
    if c > PWM_TX_FIFO_VALUES {
        PWM_TX_FIFO_VALUES as int
    } else {
        c as int
    }
}

/// Number of slots an output with count `c` is high in during the first
/// `n` words of a cycle.
pub open spec fn high_slots(c: u8, n: nat) -> int
    decreases n,
{
    if n == 0 {
        0
    } else {
        high_slots(c, (n - 1) as nat) + rounds_high(count_after_words(c, (n - 1) as nat))
    }
}

/// In a word an output is high in exactly `rounds_high` rounds, the first ones.
pub proof fn lemma_word_high_rounds(c: Seq<u8>, i: int, r: int)
    requires
        c.len() == 6,
        0 <= i < 6,
        0 <= r < 5,
    ensures
        (slot_bit(c, 6 * r + i) == 1) <==> r < rounds_high(c[i]),
{
    assert((6 * r + i) % 6 == i && (6 * r + i) / 6 == r) by (nonlinear_arith)
        requires
            0 <= i < 6,
    ;
}

proof fn lemma_high_slots_closed(c: u8, n: nat)
    ensures
        high_slots(c, n) == (if c < 5 * n { c as int } else { (5 * n) as int }),
        count_after_words(c, n) == (if c < 5 * n { 0 } else { c - 5 * n }),
    decreases n,
{
    if n > 0 {
        lemma_high_slots_closed(c, (n - 1) as nat);
    }
}

/// PWM duty cycle: over one cycle of 50 words an output whose count-down
/// was loaded with level `c` (at most 250) is high in exactly `c` of the
/// 250 slots, and its count-down ends at zero.
pub proof fn lemma_pwm_cycle_duty(c: u8)
    requires
        c <= PWM_VALUE_MAX,
    ensures
        high_slots(c, PWM_VALUE_CYCLE_MAX as nat) == c,
        count_after_words(c, PWM_VALUE_CYCLE_MAX as nat) == 0,
{
    lemma_high_slots_closed(c, PWM_VALUE_CYCLE_MAX as nat);
}

/// State of the PWM bit stream of the six analog outputs.
pub struct PwmBitStream {
    count_down: [u8; 6],
    cycle_count: u8,
    last_bits: u32,
    loaded: Ghost<Seq<u8>>,
}

impl PwmBitStream {
    /// The count-downs were loaded `cycle_count` words ago.
    pub closed spec fn wf(&self) -> bool {
        &&& self.cycle_count < PWM_VALUE_CYCLE_MAX
        &&& self.loaded@.len() == 6
        &&& forall|i: int| 0 <= i < 6 ==> #[trigger] self.loaded@[i] <= PWM_VALUE_MAX
        &&& forall|i: int|
            0 <= i < 6 ==> #[trigger] self.count_down@[i] == count_after_words(
                self.loaded@[i],
                self.cycle_count as nat,
            )
    }

    /// Count-downs loaded at the start of the current cycle.
    pub closed spec fn loaded_spec(&self) -> Seq<u8> {
        self.loaded@
    }

    /// Words already produced in the current cycle.
    pub closed spec fn cycle_count_spec(&self) -> u8 {
        self.cycle_count
    }

    /// Current count-downs.
    pub closed spec fn count_down_spec(&self) -> Seq<u8> {
        self.count_down@
    }

    /// The last word handed out for pushing.
    pub closed spec fn last_bits_spec(&self) -> u32 {
        self.last_bits
    }

    /// A stream at the start of a cycle with the given output levels; no
    /// word has been pushed yet.
    pub fn new(levels: [u8; 6]) -> (r: Self)
        ensures
            r.wf(),
            r.cycle_count_spec() == 0,
            r.loaded_spec() == count_down_from_levels(levels@),
            r.count_down_spec() == count_down_from_levels(levels@),
            r.last_bits_spec() == u32::MAX,
    {
        let mut count_down: [u8; 6] = [0; 6];
        update_pwm_out_values(&mut count_down, levels);
        PwmBitStream {
            count_down,
            cycle_count: 0,
            last_bits: u32::MAX,
            loaded: Ghost(count_down_from_levels(levels@)),
        }
    }

    /// Produce the next word of the stream.
    ///
    /// Returns the word when it differs from the last one handed out (the
    /// state machine keeps shifting out its last word otherwise). After the
    /// 50th word of a cycle the count-downs are reloaded from `levels`.
    pub fn step(&mut self, levels: [u8; 6]) -> (r: Option<u32>)
        requires
            old(self).wf(),
        ensures
            final(self).wf(),
            ({
                let w = final(self).last_bits_spec();
                &&& forall|k: int|
                    0 <= k < 30 ==> #[trigger] word_bit(w, k) == (slot_bit(old(self).count_down_spec(), k) == 1)
                &&& w & 3 == 0
                &&& r == (if w != old(self).last_bits_spec() { Some(w) } else { None::<u32> })
            }),
            old(self).cycle_count_spec() + 1 < PWM_VALUE_CYCLE_MAX ==> {
                &&& final(self).cycle_count_spec() == old(self).cycle_count_spec() + 1
                &&& final(self).loaded_spec() == old(self).loaded_spec()
            },
            old(self).cycle_count_spec() + 1 == PWM_VALUE_CYCLE_MAX ==> {
                &&& final(self).cycle_count_spec() == 0
                &&& final(self).loaded_spec() == count_down_from_levels(levels@)
                &&& final(self).count_down_spec() == count_down_from_levels(levels@)
            },
    {
        let ghost before = self.count_down@;
        let bits = calc_fifo_pwm_out_bits(&mut self.count_down);
        let push = if bits != self.last_bits {
            Some(bits)
        } else {
            None
        };
        self.last_bits = bits;
        self.cycle_count += 1;
        if self.cycle_count == PWM_VALUE_CYCLE_MAX {
            self.cycle_count = 0;
            update_pwm_out_values(&mut self.count_down, levels);
            self.loaded = Ghost(count_down_from_levels(levels@));
        }
        push
    }
}

} // verus!
