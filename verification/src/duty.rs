//! Mapping of a raw analog sample to a safe duty-cycle percentage.
//!
//! A fan stalls or runs unreliably at a low duty cycle, and an analog input
//! rarely reaches the very top of its range. The mapping therefore has three
//! bands: everything below [`DUTY_MIN`] becomes a full stop, everything above
//! [`DUTY_CEILING`] becomes full speed, and what lies between passes through.

use vstd::arithmetic::div_mod::lemma_div_is_ordered;
use vstd::prelude::*;

verus! {

/// Raw analog code that stands for full fan speed.
pub const ANALOG_READ_MAX: u16 = 730;

/// Percentages below this one are forced to a full stop.
pub const DUTY_MIN: u32 = 20;

/// Percentages above this one snap to full speed.
pub const DUTY_CEILING: u32 = 95;

/// Full speed.
pub const DUTY_FULL: u32 = 100;

/// The percentage of `full_scale` that `sample` amounts to, truncated.
pub open spec fn raw_percent(sample: int, full_scale: int) -> int {
    sample * 100 / full_scale
}

/// The three-band clamp: dead-band to 0, near-ceiling to 100, the rest unchanged.
pub open spec fn clamp_duty(raw: int) -> int {
    if raw < DUTY_MIN {
        0
    } else if raw > DUTY_CEILING {
        DUTY_FULL as int
    } else {
        raw
    }
}

/// The safe duty for `sample` read against `full_scale`.
pub open spec fn safe_duty(sample: int, full_scale: int) -> int {
    clamp_duty(raw_percent(sample, full_scale))
}

/// Whether `duty` is one of the values that the mapping can produce:
/// 0, anything from 20 to 95, or 100.
pub open spec fn is_safe_duty(duty: int) -> bool {
    duty == 0 || DUTY_MIN <= duty <= DUTY_CEILING || duty == DUTY_FULL
}

/// Maps `sample` to a safe duty-cycle percentage, read against `full_scale`.
///
/// The result depends on the two arguments alone. A sample above `full_scale`
/// is accepted and gives full speed.
pub fn map_duty(sample: u16, full_scale: u16) -> (duty: u32)
    requires
        full_scale > 0,
    ensures
        duty == safe_duty(sample as int, full_scale as int),
        is_safe_duty(duty as int),
        raw_percent(sample as int, full_scale as int) < 20 ==> duty == 0,
        raw_percent(sample as int, full_scale as int) > 95 ==> duty == 100,
        20 <= raw_percent(sample as int, full_scale as int) <= 95 ==> duty == raw_percent(
            sample as int,
            full_scale as int,
        ),
{
    let raw: u32 = sample as u32 * 100 / full_scale as u32;
    if raw < DUTY_MIN {
        0
    } else if raw > DUTY_CEILING {
        DUTY_FULL
    } else {
        raw
    }
}

/// Maps a raw analog reading to a safe duty-cycle percentage, read against
/// [`ANALOG_READ_MAX`].
pub fn to_safe_duty(voltage: u16) -> (duty: u32)
    ensures
        duty == safe_duty(voltage as int, ANALOG_READ_MAX as int),
        is_safe_duty(duty as int),
        raw_percent(voltage as int, ANALOG_READ_MAX as int) < 20 ==> duty == 0,
        raw_percent(voltage as int, ANALOG_READ_MAX as int) > 95 ==> duty == 100,
{
    map_duty(voltage, ANALOG_READ_MAX)
}

/// Every non-negative sample maps to 0, to a value from 20 to 95, or to 100.
pub proof fn safe_duty_in_bands(sample: int, full_scale: int)
    requires
        0 <= sample,
        0 < full_scale,
    ensures
        is_safe_duty(safe_duty(sample, full_scale)),
{
}

/// The mapping never decreases as the sample grows: a larger sample never
/// yields a smaller duty.
pub proof fn safe_duty_is_monotonic(low: int, high: int, full_scale: int)
    requires
        0 <= low <= high,
        0 < full_scale,
    ensures
        safe_duty(low, full_scale) <= safe_duty(high, full_scale),
{
    lemma_div_is_ordered(low * 100, high * 100, full_scale);
}

/// The dead-band and the ceiling, stated on the raw percentage: below 20 the
/// duty is 0, above 95 it is 100.
pub proof fn safe_duty_snaps(sample: int, full_scale: int)
    requires
        0 <= sample,
        0 < full_scale,
    ensures
        raw_percent(sample, full_scale) < 20 ==> safe_duty(sample, full_scale) == 0,
        raw_percent(sample, full_scale) > 95 ==> safe_duty(sample, full_scale) == 100,
{
}

/// Full scale itself maps to full speed, and a zero sample to a full stop.
pub proof fn safe_duty_at_the_ends(full_scale: int)
    requires
        0 < full_scale,
    ensures
        safe_duty(0, full_scale) == 0,
        safe_duty(full_scale, full_scale) == 100,
{
    assert(full_scale * 100 / full_scale == 100) by (nonlinear_arith)
        requires
            0 < full_scale,
    ;
    assert(0int * 100 / full_scale == 0) by (nonlinear_arith)
        requires
            0 < full_scale,
    ;
}

} // verus!
