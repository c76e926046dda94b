//! The tick scheduler: when a tick is due, and how the interval between
//! ticks shrinks as the game goes on.
//!
//! All times are in milliseconds.

use vstd::prelude::*;

verus! {

/// The floor of the tick interval at score 0.
pub const FLOOR_AT_START_MS: u64 = 200;

/// The least floor: no score brings the floor below it.
pub const MIN_FLOOR_MS: u64 = 1;

/// The floor that the tick interval is held against at `score`: it starts at
/// `FLOOR_AT_START_MS`, comes down by one for each point, and stops at
/// `MIN_FLOOR_MS`.
pub open spec fn floor_at(score: nat) -> nat {
    if score + MIN_FLOOR_MS <= FLOOR_AT_START_MS {
        (FLOOR_AT_START_MS - score) as nat
    } else {
        MIN_FLOOR_MS as nat
    }
}

/// The larger of two numbers.
pub open spec fn larger(a: int, b: int) -> int {
    if a >= b {
        a
    } else {
        b
    }
}

/// A scheduler as mathematics sees it.
pub struct SchedulerView {
    /// The time between two ticks.
    pub tick_interval: nat,
    /// By how much a consumed tick shortens the interval.
    pub decrement_step: nat,
    /// Whether the interval shrinks at all.
    pub enabled: bool,
}

impl SchedulerView {
    /// Whether a tick is due once `elapsed` has passed since the last one.
    pub open spec fn due(self, elapsed: nat) -> bool {
        elapsed >= self.tick_interval
    }

    /// The scheduler after one consumed tick at `score`. With speed-up on
    /// and the interval above the floor, the interval comes down by the
    /// step, but not below the floor. Otherwise nothing changes.
    pub open spec fn ticked(self, score: nat) -> SchedulerView {
        if self.enabled && self.tick_interval > floor_at(score) {
            SchedulerView {
                tick_interval: larger(
                    floor_at(score) as int,
                    self.tick_interval - self.decrement_step,
                ) as nat,
                decrement_step: self.decrement_step,
                enabled: self.enabled,
            }
        } else {
            self
        }
    }

    /// The scheduler after one consumed tick at each score of `scores`, in
    /// order.
    pub open spec fn after(self, scores: Seq<nat>) -> SchedulerView
        decreases scores.len(),
    {
        if scores.len() == 0 {
            self
        } else {
            self.after(scores.drop_last()).ticked(scores.last())
        }
    }
}

/// Decides when the game advances.
#[derive(Clone, Copy, Debug)]
pub struct Scheduler {
    tick_interval: u64,
    decrement_step: u64,
    enabled: bool,
}

impl View for Scheduler {
    type V = SchedulerView;

    closed spec fn view(&self) -> SchedulerView {
        SchedulerView {
            tick_interval: self.tick_interval as nat,
            decrement_step: self.decrement_step as nat,
            enabled: self.enabled,
        }
    }
}

impl Scheduler {
    /// A scheduler that starts at `tick_interval`.
    pub fn new(tick_interval: u64, decrement_step: u64, enabled: bool) -> (s: Scheduler)
        ensures
            s@ == (SchedulerView {
                tick_interval: tick_interval as nat,
                decrement_step: decrement_step as nat,
                enabled,
            }),
    {
        Scheduler { tick_interval, decrement_step, enabled }
    }

    /// The current time between two ticks.
    pub fn tick_interval(&self) -> (t: u64)
        ensures
            t == self@.tick_interval,
    {
        self.tick_interval
    }

    /// Computes the floor at `score`.
    pub fn floor(score: u64) -> (f: u64)
        ensures
            f == floor_at(score as nat),
    {
        if score <= FLOOR_AT_START_MS - MIN_FLOOR_MS {
            FLOOR_AT_START_MS - score
        } else {
            MIN_FLOOR_MS
        }
    }

    /// Tells whether a tick is due, `elapsed` after the last one.
    pub fn is_tick_due(&self, elapsed: u64) -> (b: bool)
        ensures
            b == self@.due(elapsed as nat),
    {
        elapsed >= self.tick_interval
    }

    /// Takes note of a consumed tick at `score`.
    pub fn on_tick_consumed(&mut self, score: u64)
        ensures
            final(self)@ == old(self)@.ticked(score as nat),
    {
        let floor = Scheduler::floor(score);
        if self.enabled && self.tick_interval > floor {
            let lowered = self.tick_interval.saturating_sub(self.decrement_step);
            self.tick_interval = if lowered >= floor {
                lowered
            } else {
                floor
            };
        }
    }
}

/// The floor is never zero, and more points never raise it.
pub proof fn floor_is_positive_and_falls(score: nat, later: nat)
    requires
        score <= later,
    ensures
        floor_at(score) >= MIN_FLOOR_MS > 0,
        floor_at(later) <= floor_at(score) <= FLOOR_AT_START_MS,
{
}

/// A consumed tick never lengthens the interval, never brings an interval
/// that was at or above the floor below it, and never brings any interval
/// that was positive down to zero.
pub proof fn tick_only_shortens(s: SchedulerView, score: nat)
    ensures
        s.ticked(score).tick_interval <= s.tick_interval,
        s.tick_interval >= floor_at(score) ==> s.ticked(score).tick_interval >= floor_at(score),
        s.tick_interval > 0 ==> s.ticked(score).tick_interval > 0,
        s.ticked(score).decrement_step == s.decrement_step,
        s.ticked(score).enabled == s.enabled,
{
}

/// Over any run of consumed ticks the interval never grows, and one that
/// started positive stays positive.
pub proof fn interval_never_increases(s: SchedulerView, scores: Seq<nat>)
    ensures
        s.after(scores).tick_interval <= s.tick_interval,
        s.tick_interval > 0 ==> s.after(scores).tick_interval > 0,
        s.after(scores).decrement_step == s.decrement_step,
        s.after(scores).enabled == s.enabled,
    decreases scores.len(),
{
    if scores.len() > 0 {
        interval_never_increases(s, scores.drop_last());
        tick_only_shortens(s.after(scores.drop_last()), scores.last());
    }
}

/// With speed-up off, consumed ticks change nothing.
pub proof fn disabled_scheduler_is_constant(s: SchedulerView, scores: Seq<nat>)
    requires
        !s.enabled,
    ensures
        s.after(scores) == s,
    decreases scores.len(),
{
    if scores.len() > 0 {
        disabled_scheduler_is_constant(s, scores.drop_last());
    }
}

/// With speed-up on, as long as a step down never takes the interval below
/// the floor of the tick that makes it, every consumed tick shortens the
/// interval by exactly one step, whatever the scores are.
pub proof fn ratchet_above_the_floor(s: SchedulerView, scores: Seq<nat>)
    requires
        s.enabled,
        forall|i: int|
            0 <= i < scores.len() ==> s.tick_interval - (i + 1) * s.decrement_step >= floor_at(
                #[trigger] scores[i],
            ),
    ensures
        s.after(scores).tick_interval == s.tick_interval - scores.len() * s.decrement_step,
    decreases scores.len(),
{
    if scores.len() > 0 {
        let before = scores.drop_last();
        assert forall|i: int| 0 <= i < before.len() implies s.tick_interval - (i + 1)
            * s.decrement_step >= floor_at(#[trigger] before[i]) by {
            assert(before[i] == scores[i]);
        }
        ratchet_above_the_floor(s, before);
        interval_never_increases(s, before);
        assert(s.tick_interval - (before.len() + 1) * s.decrement_step >= floor_at(
            scores[before.len() as int],
        ));
        assert(scores.len() * s.decrement_step == before.len() * s.decrement_step + s.decrement_step)
            by (nonlinear_arith)
            requires
                scores.len() == before.len() + 1,
        ;
    } else {
        assert(scores.len() * s.decrement_step == 0) by (nonlinear_arith)
            requires
                scores.len() == 0,
        ;
    }
}

/// The speed ratchet. With speed-up on, over a run of consumed ticks at
/// scores that all have the floor `floor`, an interval that started at
/// `base`, not below that floor, ends at the larger of the floor and
/// `base` less one step for each tick.
pub proof fn speed_ratchet(s: SchedulerView, scores: Seq<nat>, floor: nat)
    requires
        s.enabled,
        s.tick_interval >= floor,
        forall|i: int| 0 <= i < scores.len() ==> floor_at(#[trigger] scores[i]) == floor,
    ensures
        s.after(scores).tick_interval == larger(
            floor as int,
            s.tick_interval - scores.len() * s.decrement_step,
        ),
    decreases scores.len(),
{
    if scores.len() > 0 {
        let before = scores.drop_last();
        speed_ratchet(s, before, floor);
        interval_never_increases(s, before);
        assert(floor_at(scores.last()) == floor);
        assert(scores.len() * s.decrement_step == before.len() * s.decrement_step + s.decrement_step)
            by (nonlinear_arith)
            requires
                scores.len() == before.len() + 1,
        ;
    } else {
        assert(scores.len() * s.decrement_step == 0) by (nonlinear_arith)
            requires
                scores.len() == 0,
        ;
    }
}

} // verus!
