//! From a duty percentage to what the PWM timer holds.
//!
//! The timer has two things to set: the compare value, which fixes the width
//! of the pulse, and the waveform-generation mode. At a duty of zero the mode
//! is switched off altogether, so that not even a minimal pulse reaches the
//! fan; at any other duty the output is cleared on compare match.

use vstd::prelude::*;
use crate::duty::DUTY_FULL;

verus! {

/// The largest compare value of the 8-bit timer.
pub const PWM_MAX: u16 = 255;

/// The waveform-generation mode of the timer channel.
#[derive(Clone, Copy, Debug, PartialEq, Eq, Structural)]
pub enum PwmMode {
    /// The output is driven and cleared on compare match.
    Active,
    /// Waveform generation is off; the output stays low.
    Disabled,
}

/// What the timer channel holds: the model of its registers.
#[derive(Clone, Copy, Debug, PartialEq, Eq, Structural)]
pub struct PwmRegisters {
    /// The compare value, from 0 to [`PWM_MAX`].
    pub compare: u16,
    /// The waveform-generation mode.
    pub mode: PwmMode,
}

/// The compare value for `duty` percent: `duty * PWM_MAX / 100`, truncated.
pub open spec fn compare_value(duty: int) -> int {
    duty * 255 / 100
}

/// The mode for `duty` percent: disabled at zero, active otherwise.
pub open spec fn mode_for(duty: int) -> PwmMode {
    if duty == 0 {
        PwmMode::Disabled
    } else {
        PwmMode::Active
    }
}

/// What the timer holds once `duty` percent has been applied.
pub open spec fn registers_for(duty: int) -> PwmRegisters {
    PwmRegisters { compare: compare_value(duty) as u16, mode: mode_for(duty) }
}

/// The compare value for `duty` percent.
pub fn pwm_compare(duty: u32) -> (compare: u16)
    requires
        duty <= DUTY_FULL,
    ensures
        compare == duty * PWM_MAX / 100,
        compare == compare_value(duty as int),
        compare <= PWM_MAX,
{
    (duty * (PWM_MAX as u32) / 100) as u16
}

/// The waveform-generation mode for `duty` percent.
pub fn pwm_mode(duty: u32) -> (mode: PwmMode)
    ensures
        mode == mode_for(duty as int),
        mode == PwmMode::Disabled <==> duty == 0,
{
    if duty == 0 {
        PwmMode::Disabled
    } else {
        PwmMode::Active
    }
}

impl PwmRegisters {
    /// The registers as set-up leaves them: mode active, compare value zero.
    pub fn new() -> (regs: Self)
        ensures
            regs == (PwmRegisters { compare: 0, mode: PwmMode::Active }),
    {
        PwmRegisters { compare: 0, mode: PwmMode::Active }
    }

    /// The registers after `duty` percent has been applied to them. What
    /// they held before plays no part.
    pub open spec fn applied(self, duty: int) -> PwmRegisters {
        registers_for(duty)
    }

    /// Applies `duty` percent: sets the compare value and the mode. Both are
    /// written each time, whatever the registers held.
    pub fn apply(&mut self, duty: u32)
        requires
            duty <= DUTY_FULL,
        ensures
            *final(self) == old(self).applied(duty as int),
            final(self).compare == duty * PWM_MAX / 100,
            final(self).compare <= PWM_MAX,
            final(self).mode == PwmMode::Disabled <==> duty == 0,
    {
        self.compare = pwm_compare(duty);
        self.mode = pwm_mode(duty);
    }
}

/// Applying the same duty twice leaves the registers as applying it once
/// does: there is no drift.
pub proof fn apply_is_idempotent(regs: PwmRegisters, duty: int)
    requires
        0 <= duty <= 100,
    ensures
        regs.applied(duty).applied(duty) == regs.applied(duty),
{
}

/// After `duty` has been applied the registers depend on `duty` alone,
/// not on what was applied before.
pub proof fn apply_forgets_history(first: PwmRegisters, second: PwmRegisters, duty: int)
    requires
        0 <= duty <= 100,
    ensures
        first.applied(duty) == second.applied(duty),
{
}

/// The compare value grows with the duty, from 0 at a full stop to
/// [`PWM_MAX`] at full speed.
pub proof fn compare_value_spans_the_range(low: int, high: int)
    requires
        0 <= low <= high <= 100,
    ensures
        compare_value(0) == 0,
        compare_value(100) == 255,
        0 <= compare_value(low) <= compare_value(high) <= 255,
{
}

} // verus!
