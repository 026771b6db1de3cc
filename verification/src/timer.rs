//! A one-shot countdown-timer adapter.
//!
//! The adapter owns a hardware countdown timer and the single alarm flag that
//! the timer's interrupt handler raises. `arm` programs one shot of a given
//! duration; `block_until_elapsed` turns the asynchronous alarm into a
//! synchronous wait. The hardware itself — the running counter and the
//! interrupt — is modelled by `tick`, which stands for the passage of
//! microseconds of real time: the caller that drives the real peripheral
//! advances the model clock by the time that demonstrably passed, and a
//! simulated clock drives it in tests.

use vstd::prelude::*;

verus! {

/// Errors of the countdown-timer adapter.
#[derive(Clone, Copy, Debug, PartialEq, Eq, Structural)]
pub enum TimerError {
    /// The requested duration exceeds the largest value the hardware counter
    /// can hold.
    OutOfRange,
    /// A wait was requested although no `arm` is outstanding.
    NotArmed,
}

/// What one observation step of an outstanding wait found.
#[derive(Clone, Copy, Debug, PartialEq, Eq, Structural)]
pub enum WaitStatus {
    /// The alarm flag is still down; the caller keeps busy-waiting.
    Pending,
    /// The alarm fired; the timer is disabled and may be armed anew.
    Elapsed,
}

/// The abstract state of the timer adapter: the hardware counter, the
/// one-shot alarm, and the flag shared with the interrupt handler.
pub struct TimerView {
    /// The counter is running.
    pub enabled: bool,
    /// The one-shot alarm is still pending; it clears the moment it fires.
    pub alarm_enabled: bool,
    /// Microseconds counted since the counter was last reset.
    pub counter: u64,
    /// The programmed alarm threshold, in microseconds.
    pub threshold: u64,
    /// The shared alarm flag: raised by the alarm interrupt, cleared by `arm`.
    pub flag: bool,
    /// An `arm` is outstanding: no wait has completed since it.
    pub armed: bool,
}

/// The largest duration, in microseconds, that the hardware counter can hold.
pub open spec fn max_duration_micros() -> u128 {
    u64::MAX as u128
}

/// The timer state immediately after a successful `arm` for `d` microseconds,
/// from any prior state `v`: counter reset, threshold programmed, alarm flag
/// cleared, one-shot alarm and counter enabled.
pub open spec fn spec_arm(v: TimerView, d: u128) -> TimerView
    recommends
        d <= max_duration_micros(),
{
    TimerView {
        enabled: true,
        alarm_enabled: true,
        counter: 0,
        threshold: d as u64,
        flag: false,
        armed: true,
    }
}

/// The timer state after `delta` microseconds of hardware time pass: while
/// the timer is enabled the counter advances (saturating at its capacity),
/// and a pending one-shot alarm fires — raising the shared flag and consuming
/// itself — as soon as the counter reaches the threshold.
pub open spec fn spec_tick(v: TimerView, delta: u64) -> TimerView {
    if v.enabled {
        let c = if v.counter + delta > u64::MAX {
            u64::MAX
        } else {
            (v.counter + delta) as u64
        };
        let fires = v.alarm_enabled && c >= v.threshold;
        TimerView { counter: c, flag: v.flag || fires, alarm_enabled: v.alarm_enabled && !fires, ..v }
    } else {
        v
    }
}

/// The timer state after a whole sequence of time steps.
pub open spec fn spec_ticks(v: TimerView, deltas: Seq<u64>) -> TimerView
    decreases deltas.len(),
{
    if deltas.len() == 0 {
        v
    } else {
        spec_ticks(spec_tick(v, deltas[0]), deltas.drop_first())
    }
}

/// Total simulated time of a sequence of steps, in microseconds.
pub open spec fn sum_micros(deltas: Seq<u64>) -> int
    decreases deltas.len(),
{
    if deltas.len() == 0 {
        0
    } else {
        deltas[0] + sum_micros(deltas.drop_first())
    }
}

/// A one-shot countdown-timer adapter: wraps the hardware countdown timer and
/// the alarm flag its interrupt raises, and exposes arm / wait-until-elapsed.
/// Only one arm/wait pair may be outstanding at a time, which exclusive
/// ownership of the adapter enforces by construction.
pub struct TimerWrapper {
    enabled: bool,
    alarm_enabled: bool,
    counter: u64,
    threshold: u64,
    flag: bool,
    armed: bool,
}

impl View for TimerWrapper {
    type V = TimerView;

    closed spec fn view(&self) -> TimerView {
        TimerView {
            enabled: self.enabled,
            alarm_enabled: self.alarm_enabled,
            counter: self.counter,
            threshold: self.threshold,
            flag: self.flag,
            armed: self.armed,
        }
    }
}

impl TimerWrapper {
    /// A fresh adapter: timer disabled, not armed, alarm flag down.
    pub fn new() -> (t: Self)
        ensures
            t@ == (TimerView {
                enabled: false,
                alarm_enabled: false,
                counter: 0,
                threshold: 0,
                flag: false,
                armed: false,
            }),
    {
        TimerWrapper {
            enabled: false,
            alarm_enabled: false,
            counter: 0,
            threshold: 0,
            flag: false,
            armed: false,
        }
    }

    /// Arms one shot of `duration_micros` microseconds: resets the counter,
    /// programs the alarm threshold, clears the shared alarm flag, and enables
    /// the alarm and the counter. A duration beyond the counter's capacity
    /// fails with `OutOfRange` and leaves the timer untouched — it is never
    /// silently truncated.
    pub fn arm(&mut self, duration_micros: u128) -> (r: Result<(), TimerError>)
        ensures
            duration_micros <= max_duration_micros() ==> r == Ok::<(), TimerError>(())
                && final(self)@ == spec_arm(old(self)@, duration_micros),
            duration_micros > max_duration_micros() ==> r == Err::<(), TimerError>(
                TimerError::OutOfRange,
            ) && final(self)@ == old(self)@,
    {
        if duration_micros > u64::MAX as u128 {
            Err(TimerError::OutOfRange)
        } else {
            self.enabled = true;
            self.alarm_enabled = true;
            self.counter = 0;
            self.threshold = duration_micros as u64;
            self.flag = false;
            self.armed = true;
            Ok(())
        }
    }

    /// Advances the model's hardware clock by `delta` microseconds. This
    /// stands for time passing on the peripheral: the counter runs while the
    /// timer is enabled, and the one-shot alarm interrupt — the sole writer
    /// that ever raises the shared flag — fires exactly when the counter
    /// reaches the threshold.
    pub fn tick(&mut self, delta: u64)
        ensures
            final(self)@ == spec_tick(old(self)@, delta),
    {
        if self.enabled {
            self.counter = self.counter.saturating_add(delta);
            if self.alarm_enabled && self.counter >= self.threshold {
                self.flag = true;
                self.alarm_enabled = false;
            }
        }
    }

    /// One observation step of a blocking wait. Without an outstanding `arm`
    /// this fails with `NotArmed` at once — it never hangs. While the alarm
    /// flag is still down the wait is `Pending` and the caller busy-waits by
    /// observing again. Once the flag is up the wait is `Elapsed`: the timer
    /// is disabled and the adapter may be armed anew.
    pub fn block_until_elapsed(&mut self) -> (r: Result<WaitStatus, TimerError>)
        ensures
            !old(self)@.armed ==> r == Err::<WaitStatus, TimerError>(TimerError::NotArmed)
                && final(self)@ == old(self)@,
            old(self)@.armed && !old(self)@.flag ==> r == Ok::<WaitStatus, TimerError>(
                WaitStatus::Pending,
            ) && final(self)@ == old(self)@,
            old(self)@.armed && old(self)@.flag ==> r == Ok::<WaitStatus, TimerError>(
                WaitStatus::Elapsed,
            ) && final(self)@ == (TimerView { enabled: false, armed: false, ..old(self)@ }),
    {
        if !self.armed {
            Err(TimerError::NotArmed)
        } else if !self.flag {
            Ok(WaitStatus::Pending)
        } else {
            self.enabled = false;
            self.armed = false;
            Ok(WaitStatus::Elapsed)
        }
    }

    /// Whether an `arm` is outstanding.
    pub fn is_armed(&self) -> (b: bool)
        ensures
            b == self@.armed,
    {
        self.armed
    }

    /// Whether the alarm interrupt has fired since the last `arm`.
    pub fn alarm_fired(&self) -> (b: bool)
        ensures
            b == self@.flag,
    {
        self.flag
    }
}

/// Law: arming never inherits residual state. Immediately after any
/// successful `arm` the alarm flag is down and the counter is reset, whatever
/// the timer did before — so repeated arm/wait cycles are independent.
pub proof fn lemma_arm_clears_residual_state(v: TimerView, d: u128)
    requires
        d <= max_duration_micros(),
    ensures
        !spec_arm(v, d).flag,
        spec_arm(v, d).counter == 0,
        spec_arm(v, d).armed,
        spec_arm(v, d).enabled,
        spec_arm(v, d).alarm_enabled,
{
}

proof fn lemma_sum_micros_nonneg(deltas: Seq<u64>)
    ensures
        sum_micros(deltas) >= 0,
    decreases deltas.len(),
{
    if deltas.len() > 0 {
        lemma_sum_micros_nonneg(deltas.drop_first());
    }
}

/// Through any passage of time the threshold never changes, and the alarm
/// flag can come up only once enough time has passed for the counter to reach
/// the threshold.
proof fn lemma_flag_needs_time(v: TimerView, deltas: Seq<u64>)
    ensures
        spec_ticks(v, deltas).threshold == v.threshold,
        spec_ticks(v, deltas).flag ==> v.flag || v.counter + sum_micros(deltas) >= v.threshold,
    decreases deltas.len(),
{
    if deltas.len() > 0 {
        lemma_sum_micros_nonneg(deltas.drop_first());
        lemma_flag_needs_time(spec_tick(v, deltas[0]), deltas.drop_first());
    }
}

/// Law: a wait never completes early. After `arm(d)`, no passage of simulated
/// time totalling less than `d` microseconds can raise the alarm flag — and
/// `block_until_elapsed` reports `Elapsed` only once the flag is up, so a
/// wait armed for `d` completes only after at least `d` has elapsed.
pub proof fn lemma_no_early_alarm(v: TimerView, d: u128, deltas: Seq<u64>)
    requires
        d <= max_duration_micros(),
    ensures
        spec_ticks(spec_arm(v, d), deltas).flag ==> sum_micros(deltas) >= d,
{
    lemma_flag_needs_time(spec_arm(v, d), deltas);
}

/// Law: each arm yields at most one alarm. Once the one-shot alarm has been
/// consumed (or before any arm enabled it), no further passage of time
/// changes the flag or revives the alarm — only a fresh `arm` does.
pub proof fn lemma_alarm_fires_at_most_once(v: TimerView, deltas: Seq<u64>)
    requires
        !v.alarm_enabled,
    ensures
        spec_ticks(v, deltas).flag == v.flag,
        !spec_ticks(v, deltas).alarm_enabled,
    decreases deltas.len(),
{
    if deltas.len() > 0 {
        lemma_alarm_fires_at_most_once(spec_tick(v, deltas[0]), deltas.drop_first());
    }
}

/// While the timer runs with its alarm still pending (or already fired), the
/// alarm flag is up by the time the counter has had the threshold's worth of
/// time, in however many steps.
proof fn lemma_flag_by_total(w: TimerView, deltas: Seq<u64>)
    requires
        w.enabled,
        w.flag || w.alarm_enabled,
        deltas.len() > 0,
        w.counter + sum_micros(deltas) >= w.threshold,
    ensures
        spec_ticks(w, deltas).flag,
    decreases deltas.len(),
{
    let w2 = spec_tick(w, deltas[0]);
    lemma_sum_micros_nonneg(deltas.drop_first());
    if deltas.len() > 1 {
        lemma_flag_by_total(w2, deltas.drop_first());
    } else {
        assert(deltas.drop_first().len() == 0);
        assert(sum_micros(deltas) == deltas[0] + sum_micros(deltas.drop_first()));
        assert(spec_ticks(w2, deltas.drop_first()) == w2);
        assert(spec_ticks(w, deltas) == w2);
        assert(w2.flag);
    }
}

/// Law: the alarm fires no later than the armed duration. After `arm(d)`,
/// once at least `d` microseconds of simulated time have passed (in at least
/// one step), the alarm flag is up — exactly one interrupt per arm, no later
/// than the threshold.
pub proof fn lemma_alarm_by_deadline(v: TimerView, d: u128, deltas: Seq<u64>)
    requires
        d <= max_duration_micros(),
        deltas.len() > 0,
        sum_micros(deltas) >= d,
    ensures
        spec_ticks(spec_arm(v, d), deltas).flag,
{
    lemma_flag_by_total(spec_arm(v, d), deltas);
}

} // verus!
