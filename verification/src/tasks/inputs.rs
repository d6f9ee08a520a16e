//! Input handling of the input tasks: knob readings to PWM levels,
//! smoothing of ADC blocks, and when the status line has to be redrawn.

use vstd::prelude::*;

use super::history::{readings_sum, KnobHistory, KNOB_HISTORY_LEN};
use super::PWM_VALUE_MAX;

verus! {

/// Full scale of the 12-bit ADC readings.
pub const ADC_FULL_SCALE: u16 = 4096;

/// Number of ADC channels read in one block (input, knob 1, knob 2).
pub const ADC_NUM_CHANNELS: usize = 3;

/// Samples per channel in one ADC block.
pub const ADC_BLOCK_SIZE: usize = 500;

/// Level of a push button.
#[derive(Clone, Copy, Debug, PartialEq, Eq, Structural)]
pub enum ButtonLevel {
    Low,
    High,
}

/// `(kn * 250 / 4096)` as the byte the firmware keeps of it.
pub open spec fn knob_scaled(kn: u16) -> int {
    (kn as int * PWM_VALUE_MAX as int / ADC_FULL_SCALE as int) % 256
}

/// PWM value of an output driven by a knob: full scale at knob zero,
/// falling as the knob turns up.
pub open spec fn knob_pwm_value(kn: u16) -> u8 {
    (PWM_VALUE_MAX - knob_scaled(kn)) as u8
}

/// The PWM value (0 to 250) for a knob reading.
///
/// The scaled reading is kept as a byte and subtracted from 250, which
/// must not underflow; every 12-bit reading satisfies this.
pub fn knob_to_pwm_value(kn: u16) -> (r: u8)
    requires
        knob_scaled(kn) <= PWM_VALUE_MAX,
    ensures
        r == knob_pwm_value(kn),
{
    let q: u64 = kn as u64 * PWM_VALUE_MAX as u64 / 4096;
    assert((q as u8) as int == q % 256) by (bit_vector);
    PWM_VALUE_MAX - (q as u8)
}

/// The inverted knob reading shown on the display.
pub fn inverted_knob(kn: u16) -> (r: u16)
    requires
        kn <= ADC_FULL_SCALE,
    ensures
        r == ADC_FULL_SCALE - kn,
{
    ADC_FULL_SCALE - kn
}

/// The sign shown for a button level: `+` when high, `-` when low.
pub fn level_sign(level: ButtonLevel) -> (r: &'static str)
    ensures
        level == ButtonLevel::High ==> r@ == "+"@,
        level == ButtonLevel::Low ==> r@ == "-"@,
{
    match level {
        ButtonLevel::High => "+",
        ButtonLevel::Low => "-",
    }
}

/// The inputs as last shown: analog input, knob 1, knob 2, buttons.
#[derive(Clone, Copy, Debug, PartialEq, Eq, Structural)]
pub struct InputsSnapshot {
    pub ain: u16,
    pub kn1: u16,
    pub kn2: u16,
    pub btn1: ButtonLevel,
    pub btn2: ButtonLevel,
}

impl InputsSnapshot {
    /// Nothing read yet: all zero, buttons low.
    pub fn new() -> (r: Self)
        ensures
            r == (InputsSnapshot {
                ain: 0,
                kn1: 0,
                kn2: 0,
                btn1: ButtonLevel::Low,
                btn2: ButtonLevel::Low,
            }),
    {
        InputsSnapshot { ain: 0, kn1: 0, kn2: 0, btn1: ButtonLevel::Low, btn2: ButtonLevel::Low }
    }
}

/// Whether any input differs from the snapshot.
pub fn inputs_changed(prev: &InputsSnapshot, cur: &InputsSnapshot) -> (r: bool)
    ensures
        r == (*prev != *cur),
{
    cur.ain != prev.ain || cur.kn1 != prev.kn1 || cur.kn2 != prev.kn2 || cur.btn1 != prev.btn1
        || cur.btn2 != prev.btn2
}

/// The values of the status line: analog input, button 1 sign, inverted
/// knob 1, button 2 sign, inverted knob 2.
pub struct StatusLine {
    pub ain: u16,
    pub btn1: &'static str,
    pub kn1: u16,
    pub btn2: &'static str,
    pub kn2: u16,
}

/// The status line shown for a snapshot.
pub open spec fn status_line_spec(s: StatusLine, ain: u16, kn1: u16, kn2: u16, btn1: ButtonLevel, btn2: ButtonLevel) -> bool {
    &&& s.ain == ain
    &&& s.kn1 == ADC_FULL_SCALE - kn1
    &&& s.kn2 == ADC_FULL_SCALE - kn2
    &&& (btn1 == ButtonLevel::High ==> s.btn1@ == "+"@)
    &&& (btn1 == ButtonLevel::Low ==> s.btn1@ == "-"@)
    &&& (btn2 == ButtonLevel::High ==> s.btn2@ == "+"@)
    &&& (btn2 == ButtonLevel::Low ==> s.btn2@ == "-"@)
}

fn make_status_line(ain: u16, kn1: u16, kn2: u16, btn1: ButtonLevel, btn2: ButtonLevel) -> (r: StatusLine)
    requires
        kn1 <= ADC_FULL_SCALE,
        kn2 <= ADC_FULL_SCALE,
    ensures
        status_line_spec(r, ain, kn1, kn2, btn1, btn2),
{
    StatusLine {
        ain,
        btn1: level_sign(btn1),
        kn1: inverted_knob(kn1),
        btn2: level_sign(btn2),
        kn2: inverted_knob(kn2),
    }
}

/// What one round of an input task does with its outputs and display.
pub struct InputsUpdate {
    /// PWM value of output 1.
    pub out1_value: u8,
    /// PWM value of output 2.
    pub out2_value: u8,
    /// The status line to draw, when the inputs changed.
    pub status: Option<StatusLine>,
}

/// One round of the input/display task on smoothed readings.
///
/// Outputs 1 and 2 follow the knobs; when any reading or button differs
/// from the snapshot, the snapshot is replaced and the status line is
/// returned for drawing.
pub fn inputs_display_task_step(prev: &mut InputsSnapshot, cur: InputsSnapshot) -> (r: InputsUpdate)
    requires
        knob_scaled(cur.kn1) <= PWM_VALUE_MAX,
        knob_scaled(cur.kn2) <= PWM_VALUE_MAX,
        *old(prev) != cur ==> cur.kn1 <= ADC_FULL_SCALE && cur.kn2 <= ADC_FULL_SCALE,
    ensures
        r.out1_value == knob_pwm_value(cur.kn1),
        r.out2_value == knob_pwm_value(cur.kn2),
        *old(prev) == cur ==> r.status is None && *final(prev) == *old(prev),
        *old(prev) != cur ==> {
            &&& *final(prev) == cur
            &&& r.status matches Some(s) && status_line_spec(s, cur.ain, cur.kn1, cur.kn2, cur.btn1, cur.btn2)
        },
{
    let out1_value = knob_to_pwm_value(cur.kn1);
    let out2_value = knob_to_pwm_value(cur.kn2);
    let status = if inputs_changed(prev, &cur) {
        *prev = cur;
        Some(make_status_line(cur.ain, cur.kn1, cur.kn2, cur.btn1, cur.btn2))
    } else {
        None
    };
    InputsUpdate { out1_value, out2_value, status }
}

/// One round of the input task: outputs 1 and 2 follow the knobs, and
/// while button 1 is low the inverted knob 1 reading is offered as the new
/// oscillator frequency.
pub fn inputs_task_step(kn1: u16, kn2: u16, btn1: ButtonLevel) -> (r: (u8, u8, Option<u16>))
    requires
        knob_scaled(kn1) <= PWM_VALUE_MAX,
        knob_scaled(kn2) <= PWM_VALUE_MAX,
        btn1 == ButtonLevel::Low ==> kn1 <= ADC_FULL_SCALE,
    ensures
        r.0 == knob_pwm_value(kn1),
        r.1 == knob_pwm_value(kn2),
        r.2 == (if btn1 == ButtonLevel::Low { Some((ADC_FULL_SCALE - kn1) as u16) } else { None::<u16> }),
{
    let out1 = knob_to_pwm_value(kn1);
    let out2 = knob_to_pwm_value(kn2);
    let freq = if btn1 == ButtonLevel::Low {
        Some(inverted_knob(kn1))
    } else {
        None
    };
    (out1, out2, freq)
}

/// The readings of a knob history after recording `kn`.
pub open spec fn history_after(h: Seq<u16>, kn: u16) -> Seq<u16> {
    if h.len() < KNOB_HISTORY_LEN {
        h.push(kn)
    } else {
        h.drop_first().push(kn)
    }
}

/// Recording a reading keeps the last readings, at most ten: the new
/// reading is the newest entry, and the history is the last
/// `min(n + 1, 10)` readings of the old history followed by it.
pub proof fn lemma_history_after_keeps_last_ten(h: Seq<u16>, kn: u16)
    requires
        h.len() <= 10,
    ensures
        history_after(h, kn).len() == (if h.len() < 10 { h.len() + 1 } else { 10 }),
        history_after(h, kn).last() == kn,
        history_after(h, kn) == h.push(kn).subrange(
            if h.len() + 1 > 10 { h.len() + 1 - 10 } else { 0int },
            h.len() + 1int,
        ),
        forall|i: int|
            0 <= i < history_after(h, kn).len() - 1 ==> #[trigger] history_after(h, kn)[i] == h[h.len()
                - (history_after(h, kn).len() - 1) + i],
{
    assert(history_after(h, kn) =~= h.push(kn).subrange(
        if h.len() + 1 > 10 { h.len() + 1 - 10 } else { 0int },
        h.len() + 1int,
    ));
}

/// Integer average of a non-empty sequence of readings.
pub open spec fn readings_average(s: Seq<u16>) -> int {
    readings_sum(s) / (s.len() as int)
}

/// The snapshot a core-1 round compares: smoothed knobs.
pub open spec fn core1_snapshot(
    h1: Seq<u16>,
    h2: Seq<u16>,
    ain: u16,
    kn1: u16,
    kn2: u16,
    btn1: ButtonLevel,
    btn2: ButtonLevel,
) -> InputsSnapshot {
    InputsSnapshot {
        ain,
        kn1: readings_average(history_after(h1, kn1)) as u16,
        kn2: readings_average(history_after(h2, kn2)) as u16,
        btn1,
        btn2,
    }
}

/// One round of the core-1 input task.
///
/// The knob readings are smoothed over their last ten values; outputs 1
/// and 2 follow the raw knob readings. When the input, a smoothed knob or
/// a button differs from the snapshot, the snapshot is replaced and the
/// status line (with the raw, inverted knob readings) is returned.
pub fn core1_task_step(
    prev: &mut InputsSnapshot,
    kn1_history: &mut KnobHistory,
    kn2_history: &mut KnobHistory,
    ain: u16,
    kn1: u16,
    kn2: u16,
    btn1: ButtonLevel,
    btn2: ButtonLevel,
) -> (r: InputsUpdate)
    requires
        old(kn1_history).wf(),
        old(kn2_history).wf(),
        knob_scaled(kn1) <= PWM_VALUE_MAX,
        knob_scaled(kn2) <= PWM_VALUE_MAX,
        core1_snapshot(old(kn1_history).readings(), old(kn2_history).readings(), ain, kn1, kn2, btn1, btn2)
            != *old(prev) ==> kn1 <= ADC_FULL_SCALE && kn2 <= ADC_FULL_SCALE,
    ensures
        final(kn1_history).wf(),
        final(kn2_history).wf(),
        final(kn1_history).readings() == history_after(old(kn1_history).readings(), kn1),
        final(kn2_history).readings() == history_after(old(kn2_history).readings(), kn2),
        final(kn1_history).readings().len() > 0 && final(kn1_history).readings().last() == kn1,
        final(kn2_history).readings().len() > 0 && final(kn2_history).readings().last() == kn2,
        final(kn1_history).readings() == old(kn1_history).readings().push(kn1).subrange(
            if old(kn1_history).readings().len() + 1 > 10 { old(kn1_history).readings().len() + 1 - 10 } else { 0int },
            old(kn1_history).readings().len() + 1int,
        ),
        final(kn2_history).readings() == old(kn2_history).readings().push(kn2).subrange(
            if old(kn2_history).readings().len() + 1 > 10 { old(kn2_history).readings().len() + 1 - 10 } else { 0int },
            old(kn2_history).readings().len() + 1int,
        ),
        r.out1_value == knob_pwm_value(kn1),
        r.out2_value == knob_pwm_value(kn2),
        ({
            let cur = core1_snapshot(old(kn1_history).readings(), old(kn2_history).readings(), ain, kn1, kn2, btn1, btn2);
            &&& cur == *old(prev) ==> r.status is None && *final(prev) == *old(prev)
            &&& cur != *old(prev) ==> {
                &&& *final(prev) == cur
                &&& r.status matches Some(s) && status_line_spec(s, ain, kn1, kn2, btn1, btn2)
            }
        }),
{
    proof {
        lemma_history_after_keeps_last_ten(kn1_history.readings(), kn1);
        lemma_history_after_keeps_last_ten(kn2_history.readings(), kn2);
    }
    kn1_history.write(kn1);
    let kn1_avg = kn1_history.average();
    kn2_history.write(kn2);
    let kn2_avg = kn2_history.average();
    let out1_value = knob_to_pwm_value(kn1);
    let out2_value = knob_to_pwm_value(kn2);
    let cur = InputsSnapshot { ain, kn1: kn1_avg, kn2: kn2_avg, btn1, btn2 };
    let status = if inputs_changed(prev, &cur) {
        *prev = cur;
        Some(make_status_line(ain, kn1, kn2, btn1, btn2))
    } else {
        None
    };
    InputsUpdate { out1_value, out2_value, status }
}

/// Running average of readings: each new reading is averaged with the
/// previous average (integer halving).
pub open spec fn running_average(start: u16, s: Seq<u16>) -> int
    decreases s.len(),
{
    if s.len() == 0 {
        start as int
    } else {
        (running_average(start, s.drop_last()) + s.last()) / 2
    }
}

/// The running average never needs more than 16 bits in between.
pub open spec fn running_average_fits(start: u16, s: Seq<u16>) -> bool
    decreases s.len(),
{
    s.len() == 0 || (running_average_fits(start, s.drop_last()) && running_average(start, s.drop_last())
        + s.last() <= u16::MAX)
}

/// The readings of channel `c` in an interleaved block.
pub open spec fn channel_samples(buf: Seq<u16>, c: int) -> Seq<u16> {
    Seq::new(buf.len() / 3, |k: int| buf[3 * k + c])
}

proof fn lemma_running_average_bounded(start: u16, s: Seq<u16>)
    requires
        running_average_fits(start, s),
    ensures
        0 <= running_average(start, s) <= u16::MAX,
    decreases s.len(),
{
    if s.len() > 0 {
        lemma_running_average_bounded(start, s.drop_last());
    }
}

/// Average an interleaved block of readings (input, knob 1, knob 2, ...)
/// into running averages that start from the previous ones.
pub fn average_adc_block(prev: [u16; 3], adc_buf: &[u16]) -> (r: [u16; 3])
    requires
        adc_buf@.len() % 3 == 0,
        forall|c: int| 0 <= c < 3 ==> #[trigger] running_average_fits(prev@[c], channel_samples(adc_buf@, c)),
    ensures
        forall|c: int| 0 <= c < 3 ==> #[trigger] r@[c] as int == running_average(prev@[c], channel_samples(adc_buf@, c)),
{
    let mut avg = prev;
    let len = adc_buf.len();
    let mut i: usize = 0;
    while i < len
        invariant
            len == adc_buf@.len(),
            len % 3 == 0,
            i % 3 == 0,
            i <= len,
            forall|c: int| 0 <= c < 3 ==> #[trigger] running_average_fits(prev@[c], channel_samples(adc_buf@, c)),
            forall|c: int|
                0 <= c < 3 ==> #[trigger] avg@[c] as int == running_average(
                    prev@[c],
                    channel_samples(adc_buf@, c).take(i as int / 3),
                ),
        decreases len - i,
    {
        proof {
            lemma_channel_step(prev@[0], adc_buf@, 0, i as int);
            lemma_channel_step(prev@[1], adc_buf@, 1, i as int);
            lemma_channel_step(prev@[2], adc_buf@, 2, i as int);
        }
        let ghost old_avg = avg@;
        let a = (avg[0] + adc_buf[i]) / 2;
        avg[0] = a;
        let b = (avg[1] + adc_buf[i + 1]) / 2;
        avg[1] = b;
        let c = (avg[2] + adc_buf[i + 2]) / 2;
        avg[2] = c;
        proof {
            assert forall|c: int| 0 <= c < 3 implies #[trigger] avg@[c] as int == running_average(
                prev@[c],
                channel_samples(adc_buf@, c).take((i + 3) as int / 3),
            ) by {
                assert((i + 3) as int / 3 == i as int / 3 + 1);
                assert(old_avg[c] as int == running_average(prev@[c], channel_samples(adc_buf@, c).take(i as int / 3)));
            }
        }
        i += 3;
    }
    proof {
        assert forall|c: int| 0 <= c < 3 implies channel_samples(adc_buf@, c).take(len as int / 3)
            =~= channel_samples(adc_buf@, c) by {}
    }
    avg
}

proof fn lemma_channel_step(start: u16, buf: Seq<u16>, c: int, i: int)
    requires
        buf.len() % 3 == 0,
        i % 3 == 0,
        0 <= i < buf.len(),
        0 <= c < 3,
        running_average_fits(start, channel_samples(buf, c)),
    ensures
        running_average(start, channel_samples(buf, c).take(i / 3 + 1)) == (running_average(
            start,
            channel_samples(buf, c).take(i / 3),
        ) + buf[i + c]) / 2,
        running_average(start, channel_samples(buf, c).take(i / 3)) + buf[i + c] <= u16::MAX,
        0 <= running_average(start, channel_samples(buf, c).take(i / 3)),
{
    let s = channel_samples(buf, c);
    let t = s.take(i / 3 + 1);
    assert(i / 3 < s.len());
    assert(t.drop_last() =~= s.take(i / 3));
    assert(3 * (i / 3) + c == i + c);
    assert(t.last() == buf[i + c]);
    lemma_fits_prefix(start, s, i / 3 + 1);
    lemma_running_average_bounded(start, t.drop_last());
}

proof fn lemma_fits_prefix(start: u16, s: Seq<u16>, n: int)
    requires
        running_average_fits(start, s),
        0 <= n <= s.len(),
    ensures
        running_average_fits(start, s.take(n)),
    decreases s.len(),
{
    if n < s.len() {
        assert(s.drop_last().take(n) =~= s.take(n));
        lemma_fits_prefix(start, s.drop_last(), n);
    } else {
        assert(s.take(n) =~= s);
    }
}

} // verus!
