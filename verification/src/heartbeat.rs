//! The heartbeat: a status indicator that blinks at its own pace.
//!
//! The control loop ticks much faster than a blink should be. The heartbeat
//! counts the ticks and flips the indicator each time the count reaches a
//! threshold, which is the blink period expressed in ticks.

use vstd::arithmetic::div_mod::{lemma_fundamental_div_mod, lemma_fundamental_div_mod_converse};
use vstd::prelude::*;

verus! {

/// The indicator and the ticks counted since it last flipped.
#[derive(Clone, Copy, Debug, PartialEq, Eq, Structural)]
pub struct HeartbeatState {
    /// Whether the indicator is lit.
    pub on: bool,
    /// Ticks counted since the last flip.
    pub elapsed: u16,
}

impl HeartbeatState {
    /// Whether the next tick flips the indicator.
    pub open spec fn flips_next(self, threshold: u16) -> bool {
        self.elapsed + 1 == threshold
    }

    /// The state after one tick: the count goes up by one, and where it
    /// reaches `threshold` the indicator flips and the count starts again.
    pub open spec fn ticked(self, threshold: u16) -> HeartbeatState {
        if self.flips_next(threshold) {
            HeartbeatState { on: !self.on, elapsed: 0 }
        } else {
            HeartbeatState { on: self.on, elapsed: (self.elapsed + 1) as u16 }
        }
    }

    /// The state after `n` ticks.
    pub open spec fn after_ticks(self, threshold: u16, n: nat) -> HeartbeatState
        decreases n,
    {
        if n == 0 {
            self
        } else {
            self.after_ticks(threshold, (n - 1) as nat).ticked(threshold)
        }
    }

    /// How often the indicator flips in the course of `n` ticks.
    pub open spec fn flips_within(self, threshold: u16, n: nat) -> nat
        decreases n,
    {
        if n == 0 {
            0
        } else {
            let before = self.flips_within(threshold, (n - 1) as nat);
            if self.after_ticks(threshold, (n - 1) as nat).flips_next(threshold) {
                before + 1
            } else {
                before
            }
        }
    }

    /// The indicator dark and the count at zero.
    pub fn new() -> (state: Self)
        ensures
            state == (HeartbeatState { on: false, elapsed: 0 }),
    {
        HeartbeatState { on: false, elapsed: 0 }
    }

    /// Counts one tick of the control loop.
    pub fn tick(&mut self, threshold: u16)
        requires
            old(self).elapsed < u16::MAX,
        ensures
            *final(self) == old(self).ticked(threshold),
            final(self).on != old(self).on <==> old(self).elapsed + 1 == threshold,
    {
        let count: u16 = self.elapsed + 1;
        if count == threshold {
            self.on = !self.on;
            self.elapsed = 0;
        } else {
            self.elapsed = count;
        }
    }
}

/// The blink period in ticks: `heartbeat_period / tick_period`, truncated.
/// Both periods are in the same unit.
pub fn heartbeat_threshold(heartbeat_period: u16, tick_period: u16) -> (threshold: u16)
    requires
        tick_period > 0,
    ensures
        threshold == heartbeat_period as int / tick_period as int,
{
    heartbeat_period / tick_period
}

/// Where the heartbeat stands after any number of ticks. Starting with a
/// count below the threshold, after `n` ticks the count is
/// `(elapsed + n) % threshold` and the indicator has flipped
/// `(elapsed + n) / threshold` times: once each time the count reaches the
/// threshold and never in between. The indicator shows what it showed at
/// the start exactly when that number is even.
pub proof fn heartbeat_after_ticks(state: HeartbeatState, threshold: u16, n: nat)
    requires
        state.elapsed < threshold,
    ensures
        state.after_ticks(threshold, n).elapsed == (state.elapsed + n) % (threshold as int),
        state.flips_within(threshold, n) == (state.elapsed + n) / (threshold as int),
        state.after_ticks(threshold, n).on == state.on <==> state.flips_within(threshold, n) % 2 == 0,
    decreases n,
{
    let t = threshold as int;
    if n == 0 {
        lemma_fundamental_div_mod_converse(state.elapsed as int, t, 0, state.elapsed as int);
    } else {
        let m = (n - 1) as nat;
        heartbeat_after_ticks(state, threshold, m);
        let total = state.elapsed + m;
        let q = total / t;
        let r = total % t;
        lemma_fundamental_div_mod(total, t);
        if r + 1 == t {
            assert((q + 1) * t == t * q + t) by (nonlinear_arith);
            lemma_fundamental_div_mod_converse(total + 1, t, q + 1, 0);
        } else {
            lemma_fundamental_div_mod_converse(total + 1, t, q, r + 1);
        }
    }
}

/// One blink period, starting from a count of zero: through the first
/// `threshold - 1` ticks the indicator stays as it was, the tick that
/// completes the period flips it once, and a second period brings the
/// state back to where it started.
pub proof fn heartbeat_period(state: HeartbeatState, threshold: u16, k: nat)
    requires
        state.elapsed == 0,
        threshold > 0,
        k < threshold,
    ensures
        state.after_ticks(threshold, k) == (HeartbeatState { on: state.on, elapsed: k as u16 }),
        state.flips_within(threshold, k) == 0,
        state.after_ticks(threshold, threshold as nat) == (HeartbeatState {
            on: !state.on,
            elapsed: 0,
        }),
        state.flips_within(threshold, threshold as nat) == 1,
        state.after_ticks(threshold, 2 * (threshold as nat)) == state,
        state.flips_within(threshold, 2 * (threshold as nat)) == 2,
{
    let t = threshold as int;
    heartbeat_after_ticks(state, threshold, k);
    heartbeat_after_ticks(state, threshold, threshold as nat);
    heartbeat_after_ticks(state, threshold, 2 * (threshold as nat));
    lemma_fundamental_div_mod_converse(k as int, t, 0, k as int);
    lemma_fundamental_div_mod_converse(t, t, 1, 0);
    lemma_fundamental_div_mod_converse(2 * t, t, 2, 0);
}

} // verus!
