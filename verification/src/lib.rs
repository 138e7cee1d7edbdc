//! The core of an open-loop fan-speed controller for a small microcontroller.
//!
//! A voltage on an analog input sets the speed of a fan. Once per tick the
//! controller reads the input, maps the sample to a safe duty cycle, shows
//! the duty on a small monochrome display, applies it to a PWM timer, and
//! paces a heartbeat indicator. This crate holds the rules of that loop and
//! proves them; the hardware is driven by whoever runs the loop.
//!
//! - [`duty`] maps a sample to a duty cycle that the fan can be run at.
//! - [`formatter`] writes the duty as fixed-width decimal text.
//! - [`pwm`] turns the duty into the compare value and mode of the timer.
//! - [`display`] lays out the screen and names the operations that bring
//!   a duty onto it.
//! - [`heartbeat`] counts ticks and flips the indicator at its own period.
//! - [`control`] orders all of this into iterations.

pub mod control;
pub mod display;
pub mod duty;
pub mod formatter;
pub mod heartbeat;
pub mod pwm;
