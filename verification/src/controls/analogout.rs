//! Duty cycle bookkeeping of a PWM analog output.

use vstd::prelude::*;

verus! {

pub const ONE_HUNDRED_PERCENT: u8 = 100;

/// A percentage clamped to 100.
pub open spec fn clamp_percent(p: u8) -> u8 {
    if p < ONE_HUNDRED_PERCENT { p } else { ONE_HUNDRED_PERCENT }
}

/// What a request for `requested` percent does to an output at `current`
/// percent: the PWM is set (to the clamped request) only when the clamped
/// request differs from the current duty cycle.
pub open spec fn duty_change(current: u8, requested: u8) -> Option<u8> {
    if current != clamp_percent(requested) {
        Some(clamp_percent(requested))
    } else {
        None
    }
}

/// Duty cycle of a PWM analog output, in percent.
///
/// The PWM hardware itself is driven by the caller with the percentages
/// this type hands out.
pub struct AnalogOutput {
    duty_cycle_percent: u8,
}

impl AnalogOutput {
    pub closed spec fn duty_spec(&self) -> u8 {
        self.duty_cycle_percent
    }

    /// An output at the given duty cycle (clamped to 100 %); the PWM is to
    /// be set to `duty_cycle_percent()`.
    pub fn new(duty_cycle_percent: u8) -> (r: Self)
        ensures
            r.duty_spec() == clamp_percent(duty_cycle_percent),
    {
        let duty_cycle_percent = if duty_cycle_percent < ONE_HUNDRED_PERCENT {
            duty_cycle_percent
        } else {
            ONE_HUNDRED_PERCENT
        };
        Self { duty_cycle_percent }
    }

    /// Change the duty cycle (clamped to 100 %). Returns the percentage the
    /// PWM is to be set to when it changed, `None` when it stays.
    pub fn set_duty_cycle_percent(&mut self, duty_cycle_percent: u8) -> (r: Option<u8>)
        ensures
            final(self).duty_spec() == clamp_percent(duty_cycle_percent),
            r == duty_change(old(self).duty_spec(), duty_cycle_percent),
            duty_cycle_percent <= 100 ==> final(self).duty_spec() == duty_cycle_percent,
            duty_cycle_percent > 100 ==> final(self).duty_spec() == 100,
            r is None <==> old(self).duty_spec() == final(self).duty_spec(),
            r is Some ==> r == Some(final(self).duty_spec()),
    {
        let duty_cycle_percent = if duty_cycle_percent < ONE_HUNDRED_PERCENT {
            duty_cycle_percent
        } else {
            ONE_HUNDRED_PERCENT
        };
        if self.duty_cycle_percent != duty_cycle_percent {
            self.duty_cycle_percent = duty_cycle_percent;
            Some(duty_cycle_percent)
        } else {
            None
        }
    }

    /// The current duty cycle in percent.
    pub fn duty_cycle_percent(&self) -> (r: u8)
        ensures
            r == self.duty_spec(),
    {
        self.duty_cycle_percent
    }
}

/// A request reports a PWM change exactly when it moves the duty cycle,
/// upwards or downwards, and then reports the new (clamped) percentage;
/// it is silent exactly when the output already is at that percentage.
pub proof fn lemma_duty_change_iff_moved(current: u8, d: u8)
    ensures
        duty_change(current, d) is None <==> current == (if d <= 100 { d } else { 100u8 }),
        current != (if d <= 100 { d } else { 100u8 }) ==> duty_change(current, d) == Some(
            if d <= 100 { d } else { 100u8 },
        ),
        d <= 100 && current < d ==> duty_change(current, d) == Some(d),
        d <= 100 && current > d ==> duty_change(current, d) == Some(d),
{
}

/// Setting a duty cycle twice in a row changes the PWM at most once:
/// after a request for `d` percent the output is at the clamped `d`, and a
/// second request for `d` leaves the PWM alone. A PWM change never exceeds
/// 100 %.
pub proof fn lemma_duty_cycle_second_set_is_silent(current: u8, d: u8)
    ensures
        duty_change(if d <= 100 { d } else { 100u8 }, d) is None,
        duty_change(current, d) matches Some(p) ==> p <= 100 && p != current,
{
}

} // verus!
