//! The control loop: one iteration after another, for ever.
//!
//! An iteration reads a sample, maps it to a duty, brings the duty onto the
//! screen, applies it to the PWM timer, paces the heartbeat and waits for one
//! tick. Everything that touches the hardware is done outside: the loop says
//! which action is due, the caller performs it and reports what came of it,
//! and the loop moves on. The order of the actions, and which value each of
//! them carries, is settled here.
//!
//! A failure of the display is fatal. The loop halts at once: the duty that
//! could not be shown is not applied to the timer either, and the heartbeat
//! stops, which is the one sign of the fault that can be seen from outside.

use vstd::prelude::*;
use crate::display::{render_op, renders, DisplayError, DisplayOp, RenderStage};
use crate::duty::{is_safe_duty, map_duty, safe_duty, ANALOG_READ_MAX};
use crate::formatter::{formatted, READOUT_WIDTH};
use crate::heartbeat::{heartbeat_threshold, HeartbeatState};
use crate::pwm::{registers_for, PwmMode, PwmRegisters};

verus! {

/// The length of one tick, in milliseconds.
pub const DELAY_TIME: u16 = 100;

/// The blink period of the heartbeat, in milliseconds.
pub const HEARTBEAT_PERIOD: u16 = 1000;

/// What is fixed before the loop starts.
#[derive(Clone, Copy, Debug, PartialEq, Eq, Structural)]
pub struct LoopConfig {
    /// The length of one tick, in milliseconds.
    pub tick_period_ms: u16,
    /// The blink period of the heartbeat, in ticks.
    pub heartbeat_threshold: u16,
    /// The raw analog code that stands for full speed.
    pub full_scale: u16,
}

impl LoopConfig {
    /// A configuration that the loop can run with: the full scale and the
    /// heartbeat threshold are not zero.
    pub open spec fn wf(self) -> bool {
        self.full_scale > 0 && self.heartbeat_threshold > 0
    }

    /// The configuration of the fan controller: a tick of 100 ms, a
    /// heartbeat of ten ticks, a full scale of 730.
    pub open spec fn standard() -> LoopConfig {
        LoopConfig { tick_period_ms: 100, heartbeat_threshold: 10, full_scale: 730 }
    }

    /// Whether the loop can run with this configuration.
    pub fn is_valid(&self) -> (valid: bool)
        ensures
            valid == self.wf(),
    {
        self.full_scale > 0 && self.heartbeat_threshold > 0
    }
}

impl Default for LoopConfig {
    fn default() -> (config: Self)
        ensures
            config == LoopConfig::standard(),
            config.wf(),
    {
        LoopConfig {
            tick_period_ms: DELAY_TIME,
            heartbeat_threshold: heartbeat_threshold(HEARTBEAT_PERIOD, DELAY_TIME),
            full_scale: ANALOG_READ_MAX,
        }
    }
}

/// Where the loop stands within an iteration.
#[derive(Clone, Copy, Debug, PartialEq, Eq, Structural)]
pub enum Phase {
    /// A sample is due.
    Sampling,
    /// The duty is being brought onto the screen; the step that is due.
    Rendering(RenderStage),
    /// The duty is due to be applied to the PWM timer.
    DrivingPwm,
    /// The heartbeat has flipped and the indicator is due to follow.
    Indicating,
    /// The wait for the next tick is due.
    Pausing,
    /// The display has failed; the loop has stopped for good.
    Halted(DisplayError),
}

/// What the loop asks its caller to do next.
#[derive(Clone, Copy, Debug, PartialEq, Eq)]
pub enum Action {
    /// Read the analog input and report the sample.
    ReadSample,
    /// Perform the operation on the display and report whether it failed.
    Display(DisplayOp),
    /// Write the compare value and the mode to the PWM timer.
    WritePwm(PwmRegisters),
    /// Toggle the status indicator.
    ToggleIndicator,
    /// Block for this many milliseconds.
    Delay(u16),
    /// Stop: the display has failed.
    Halt(DisplayError),
}

/// What the caller reports back.
#[derive(Clone, Copy, Debug, PartialEq, Eq, Structural)]
pub enum Event {
    /// The analog input was read and gave this sample.
    Sample(u16),
    /// The action was performed.
    Done,
    /// The operation on the display failed.
    DisplayFailed,
}

/// The state of the loop.
#[derive(Clone, Copy, Debug, PartialEq, Eq, Structural)]
pub struct LoopState {
    /// What was fixed before the loop started.
    pub config: LoopConfig,
    /// Where the loop stands within the iteration.
    pub phase: Phase,
    /// The duty of this iteration, mapped from its sample.
    pub duty: u32,
    /// What the PWM timer holds.
    pub pwm: PwmRegisters,
    /// The heartbeat.
    pub heartbeat: HeartbeatState,
}

impl LoopState {
    /// The invariant of the loop: a configuration it can run with, a duty
    /// that the mapping can produce, and a heartbeat count below the
    /// threshold.
    pub open spec fn wf(self) -> bool {
        &&& self.config.wf()
        &&& is_safe_duty(self.duty as int)
        &&& self.heartbeat.elapsed < self.config.heartbeat_threshold
    }

    /// The state before the first iteration: a sample is due, the timer is
    /// as set-up left it, the indicator is dark.
    pub open spec fn initial(config: LoopConfig) -> LoopState {
        LoopState {
            config,
            phase: Phase::Sampling,
            duty: 0,
            pwm: PwmRegisters { compare: 0, mode: PwmMode::Active },
            heartbeat: HeartbeatState { on: false, elapsed: 0 },
        }
    }

    /// Whether `action` is the action that is due.
    pub open spec fn issues(self, action: Action) -> bool {
        match self.phase {
            Phase::Sampling => action == Action::ReadSample,
            Phase::Rendering(stage) => {
                &&& action matches Action::Display(op)
                &&& renders(stage, self.duty as nat, op)
            },
            Phase::DrivingPwm => action == Action::WritePwm(registers_for(self.duty as int)),
            Phase::Indicating => action == Action::ToggleIndicator,
            Phase::Pausing => action == Action::Delay(self.config.tick_period_ms),
            Phase::Halted(error) => action == Action::Halt(error),
        }
    }

    /// Whether `event` answers the action that is due. A sample answers the
    /// request for one; a display operation is answered by its success or
    /// its failure; every other action can only be done. Nothing answers a
    /// halt.
    pub open spec fn accepts(self, event: Event) -> bool {
        match self.phase {
            Phase::Sampling => event is Sample,
            Phase::Rendering(_) => event is Done || event is DisplayFailed,
            Phase::DrivingPwm | Phase::Indicating | Phase::Pausing => event is Done,
            Phase::Halted(_) => false,
        }
    }

    /// The state after `event`. An event that does not answer the action
    /// that is due changes nothing.
    pub open spec fn after(self, event: Event) -> LoopState {
        match (self.phase, event) {
            (Phase::Sampling, Event::Sample(sample)) => LoopState {
                duty: safe_duty(sample as int, self.config.full_scale as int) as u32,
                phase: Phase::Rendering(RenderStage::Clear),
                ..self
            },
            (Phase::Rendering(stage), Event::Done) => match stage.following() {
                Some(next) => LoopState { phase: Phase::Rendering(next), ..self },
                None => LoopState { phase: Phase::DrivingPwm, ..self },
            },
            (Phase::Rendering(stage), Event::DisplayFailed) => LoopState {
                phase: Phase::Halted(stage.failure()),
                ..self
            },
            (Phase::DrivingPwm, Event::Done) => LoopState {
                pwm: self.pwm.applied(self.duty as int),
                heartbeat: self.heartbeat.ticked(self.config.heartbeat_threshold),
                phase: if self.heartbeat.flips_next(self.config.heartbeat_threshold) {
                    Phase::Indicating
                } else {
                    Phase::Pausing
                },
                ..self
            },
            (Phase::Indicating, Event::Done) => LoopState { phase: Phase::Pausing, ..self },
            (Phase::Pausing, Event::Done) => LoopState { phase: Phase::Sampling, ..self },
            _ => self,
        }
    }

    /// The state after one whole iteration with a display that works: the
    /// sample, then the completion of every action that becomes due until
    /// the next sample is.
    pub open spec fn after_iteration(self, sample: u16) -> LoopState {
        let sampled = self.after(Event::Sample(sample));
        let shown = sampled.after(Event::Done).after(Event::Done).after(Event::Done);
        let driven = shown.after(Event::Done);
        let indicated = if driven.phase == Phase::Indicating {
            driven.after(Event::Done)
        } else {
            driven
        };
        indicated.after(Event::Done)
    }

    /// The state after one such iteration for each of `samples`, in order.
    pub open spec fn after_iterations(self, samples: Seq<u16>) -> LoopState
        decreases samples.len(),
    {
        if samples.len() == 0 {
            self
        } else {
            self.after_iterations(samples.drop_last()).after_iteration(samples.last())
        }
    }
}

/// The loop starts in a state that meets its invariant, and no event leads
/// out of it.
pub proof fn invariant_is_kept(config: LoopConfig, state: LoopState, event: Event)
    ensures
        config.wf() ==> LoopState::initial(config).wf(),
        state.wf() ==> state.after(event).wf(),
{
}

/// An event that does not answer the action that is due changes nothing,
/// and the same action stays due.
pub proof fn stray_event_is_ignored(state: LoopState, event: Event)
    requires
        !state.accepts(event),
    ensures
        state.after(event) == state,
{
}

/// One iteration with a display that works. From a state in which a sample
/// is due, the sample and then the completion of each action lead through
/// the iteration in this order: blank the readout region, draw the digits,
/// commit the frame, write the timer, toggle the indicator where the
/// heartbeat flips, wait for one tick. The digits drawn and the registers
/// written both come from the duty of this iteration's sample. At the end a
/// sample is due again, the timer holds that duty, and the heartbeat has
/// counted one tick.
pub proof fn iteration_runs_in_order(state: LoopState, sample: u16)
    requires
        state.wf(),
        state.phase == Phase::Sampling,
    ensures
        ({
            let duty = safe_duty(sample as int, state.config.full_scale as int);
            let flips = state.heartbeat.flips_next(state.config.heartbeat_threshold);
            let sampled = state.after(Event::Sample(sample));
            let cleared = sampled.after(Event::Done);
            let drawn = cleared.after(Event::Done);
            let flushed = drawn.after(Event::Done);
            let driven = flushed.after(Event::Done);
            let indicated = if flips {
                driven.after(Event::Done)
            } else {
                driven
            };
            let ended = indicated.after(Event::Done);
            &&& state.issues(Action::ReadSample)
            &&& sampled.duty == duty
            &&& sampled.phase == Phase::Rendering(RenderStage::Clear)
            &&& cleared.phase == Phase::Rendering(RenderStage::Draw)
            &&& (forall|action: Action| #[trigger]
                cleared.issues(action) ==> {
                    &&& action matches Action::Display(DisplayOp::DrawText { text, .. })
                    &&& text@ == formatted(duty as nat, READOUT_WIDTH as nat)
                })
            &&& drawn.phase == Phase::Rendering(RenderStage::Flush)
            &&& flushed.phase == Phase::DrivingPwm
            &&& flushed.pwm == state.pwm
            &&& flushed.issues(Action::WritePwm(registers_for(duty)))
            &&& driven.phase == if flips {
                Phase::Indicating
            } else {
                Phase::Pausing
            }
            &&& flips ==> driven.issues(Action::ToggleIndicator)
            &&& indicated.issues(Action::Delay(state.config.tick_period_ms))
            &&& ended == state.after_iteration(sample)
            &&& ended == LoopState {
                config: state.config,
                phase: Phase::Sampling,
                duty: duty as u32,
                pwm: registers_for(duty),
                heartbeat: state.heartbeat.ticked(state.config.heartbeat_threshold),
            }
        }),
{
}

/// Any number of iterations with a display that works. A sample is due
/// again at the end, the invariant holds, and the heartbeat has counted one
/// tick for each iteration, so the indicator is toggled once every
/// `heartbeat_threshold` iterations and never in between. The timer holds
/// the duty of the last sample.
pub proof fn iterations_pace_the_heartbeat(state: LoopState, samples: Seq<u16>)
    requires
        state.wf(),
        state.phase == Phase::Sampling,
    ensures
        ({
            let ended = state.after_iterations(samples);
            let last = safe_duty(samples.last() as int, state.config.full_scale as int);
            &&& ended.wf()
            &&& ended.phase == Phase::Sampling
            &&& ended.config == state.config
            &&& ended.heartbeat == state.heartbeat.after_ticks(
                state.config.heartbeat_threshold,
                samples.len(),
            )
            &&& samples.len() > 0 ==> ended.duty == last && ended.pwm == registers_for(last)
        }),
    decreases samples.len(),
{
    if samples.len() > 0 {
        let before = state.after_iterations(samples.drop_last());
        iterations_pace_the_heartbeat(state, samples.drop_last());
        iteration_runs_in_order(before, samples.last());
    }
}

/// A failure of the display is fatal. Whichever of the three steps fails,
/// the loop halts with the error of that step; the timer and the heartbeat
/// are as they were before the iteration's duty could be applied; and no
/// event leads out of the halt.
pub proof fn display_failure_is_fatal(state: LoopState, stage: RenderStage, later: Event)
    requires
        state.wf(),
        state.phase == Phase::Rendering(stage),
    ensures
        ({
            let halted = state.after(Event::DisplayFailed);
            &&& halted.phase == Phase::Halted(stage.failure())
            &&& halted.issues(Action::Halt(stage.failure()))
            &&& halted.pwm == state.pwm
            &&& halted.heartbeat == state.heartbeat
            &&& halted.after(later) == halted
        }),
{
}

/// The action that is due in `state`.
fn due_action(state: &LoopState) -> (action: Action)
    requires
        state.wf(),
    ensures
        state.issues(action),
{
    match state.phase {
        Phase::Sampling => Action::ReadSample,
        Phase::Rendering(stage) => Action::Display(render_op(stage, state.duty)),
        Phase::DrivingPwm => {
            let mut registers = state.pwm;
            registers.apply(state.duty);
            Action::WritePwm(registers)
        },
        Phase::Indicating => Action::ToggleIndicator,
        Phase::Pausing => Action::Delay(state.config.tick_period_ms),
        Phase::Halted(error) => Action::Halt(error),
    }
}

/// The state that follows `state` on `event`.
fn step(state: LoopState, event: Event) -> (next: LoopState)
    requires
        state.wf(),
    ensures
        next == state.after(event),
        next.wf(),
{
    let mut next = state;
    match state.phase {
        Phase::Sampling => {
            if let Event::Sample(sample) = event {
                next.duty = map_duty(sample, state.config.full_scale);
                next.phase = Phase::Rendering(RenderStage::Clear);
            }
        },
        Phase::Rendering(stage) => {
            match event {
                Event::Done => {
                    next.phase = match stage.next() {
                        Some(following) => Phase::Rendering(following),
                        None => Phase::DrivingPwm,
                    };
                },
                Event::DisplayFailed => {
                    next.phase = Phase::Halted(stage.error());
                },
                Event::Sample(_) => {},
            }
        },
        Phase::DrivingPwm => {
            if let Event::Done = event {
                let was_on = state.heartbeat.on;
                next.pwm.apply(state.duty);
                next.heartbeat.tick(state.config.heartbeat_threshold);
                next.phase = if next.heartbeat.on != was_on {
                    Phase::Indicating
                } else {
                    Phase::Pausing
                };
            }
        },
        Phase::Indicating => {
            if let Event::Done = event {
                next.phase = Phase::Pausing;
            }
        },
        Phase::Pausing => {
            if let Event::Done = event {
                next.phase = Phase::Sampling;
            }
        },
        Phase::Halted(_) => {},
    }
    next
}

/// The control loop. It owns the state of the loop and keeps its invariant;
/// its view is that state.
pub struct ControlLoop {
    state: LoopState,
}

impl View for ControlLoop {
    type V = LoopState;

    closed spec fn view(&self) -> LoopState {
        self.state
    }
}

impl ControlLoop {
    #[verifier::type_invariant]
    closed spec fn inv(self) -> bool {
        self.state.wf()
    }

    /// A loop about to start its first iteration, or nothing where the
    /// loop cannot run with `config`.
    pub fn new(config: LoopConfig) -> (made: Option<ControlLoop>)
        ensures
            made is Some <==> config.wf(),
            made matches Some(control) ==> control@ == LoopState::initial(config) && control@.wf(),
    {
        if config.is_valid() {
            Some(
                ControlLoop {
                    state: LoopState {
                        config,
                        phase: Phase::Sampling,
                        duty: 0,
                        pwm: PwmRegisters::new(),
                        heartbeat: HeartbeatState::new(),
                    },
                },
            )
        } else {
            None
        }
    }

    /// The state of the loop.
    pub fn state(&self) -> (state: LoopState)
        ensures
            state == self@,
            state.wf(),
    {
        proof {
            use_type_invariant(self);
        }
        self.state
    }

    /// The action that is due. Asking does not change the state: until an
    /// event that answers it is reported, the same action stays due.
    pub fn next_action(&self) -> (action: Action)
        ensures
            self@.issues(action),
            self@.wf(),
    {
        proof {
            use_type_invariant(self);
        }
        due_action(&self.state)
    }

    /// Takes the caller's report and moves on. An event that does not
    /// answer the action that is due is ignored.
    pub fn on_event(&mut self, event: Event)
        ensures
            final(self)@ == old(self)@.after(event),
            final(self)@.wf(),
    {
        proof {
            use_type_invariant(&*self);
        }
        self.state = step(self.state, event);
    }
}

} // verus!
