//! The phase state machine and elapsed-time accounting of a two-phase
//! countdown timer.
//!
//! An [`App`] alternates between a work phase and a break phase, each with a
//! fixed duration chosen at construction. Wall-clock time is sampled from the
//! monotonic clock and turned into whole-nanosecond decrements of the time
//! remaining in the current phase; when the remaining time runs out, the
//! timer flips to the other phase and reports the flip so that a caller can
//! notify the user.
//!
//! All durations inside the timer are whole nanoseconds held in `u128`, so
//! the arithmetic never overflows and never loses precision.

use vstd::prelude::*;

use crate::clock;

verus! {

/// Nanoseconds in one second.
pub const NANOS_PER_SEC: u128 = 1_000_000_000;

/// Nanoseconds in one minute.
pub const NANOS_PER_MIN: u128 = 60 * NANOS_PER_SEC;

/// The two phases the timer alternates between.
#[derive(Clone, Copy, Debug, PartialEq, Eq, Structural)]
pub enum Mode {
    Work,
    Break,
}

/// The phase the timer flips to when `mode` expires.
pub open spec fn other_mode(mode: Mode) -> Mode {
    match mode {
        Mode::Work => Mode::Break,
        Mode::Break => Mode::Work,
    }
}

/// The mathematical state of the timer: everything except the last clock
/// sample, which only serves to measure elapsed time and carries no
/// information of its own.
pub ghost struct TimerModel {
    pub mode: Mode,
    pub running: bool,
    /// Nanoseconds left in the current phase.
    pub remaining: int,
    /// Nanoseconds a full work phase lasts.
    pub work_time: int,
    /// Nanoseconds a full break phase lasts.
    pub break_time: int,
}

impl TimerModel {
    /// The configured full duration of `mode`, in nanoseconds.
    pub open spec fn duration_of(self, mode: Mode) -> int {
        match mode {
            Mode::Work => self.work_time,
            Mode::Break => self.break_time,
        }
    }

    /// The timer's invariant: durations are non-negative and the remaining
    /// time never exceeds the full duration of the current phase.
    pub open spec fn wf(self) -> bool {
        &&& 0 <= self.work_time
        &&& 0 <= self.break_time
        &&& 0 <= self.remaining <= self.duration_of(self.mode)
    }

    /// The state after a run/pause toggle: only the run flag flips.
    pub open spec fn toggled(self) -> TimerModel {
        TimerModel {
            mode: self.mode,
            running: !self.running,
            remaining: self.remaining,
            work_time: self.work_time,
            break_time: self.break_time,
        }
    }

    /// The state after entering `mode` at its full duration, keeping the run
    /// flag: the automatic transition taken when a phase expires.
    pub open spec fn set_to(self, mode: Mode) -> TimerModel {
        TimerModel {
            mode,
            running: self.running,
            remaining: self.duration_of(mode),
            work_time: self.work_time,
            break_time: self.break_time,
        }
    }

    /// The state after a user-initiated reset into `mode`: the phase starts
    /// over at its full duration and the timer is paused.
    pub open spec fn reset_to(self, mode: Mode) -> TimerModel {
        TimerModel {
            mode,
            running: false,
            remaining: self.duration_of(mode),
            work_time: self.work_time,
            break_time: self.break_time,
        }
    }

    /// The state after the user skips to the other phase.
    pub open spec fn switched(self) -> TimerModel {
        self.reset_to(other_mode(self.mode))
    }

    /// The state after `elapsed` nanoseconds of wall-clock time are applied.
    /// A paused timer is untouched. A running timer counts down while the
    /// elapsed time is short of the remaining time; otherwise the phase has
    /// expired (exact equality counts as expiry) and the timer enters the
    /// other phase at its full duration, still running. Elapsed time beyond
    /// the expired phase is discarded: one call crosses at most one phase
    /// boundary and the new phase always starts whole.
    pub open spec fn advanced(self, elapsed: int) -> TimerModel {
        if !self.running {
            self
        } else if elapsed < self.remaining {
            TimerModel {
                mode: self.mode,
                running: self.running,
                remaining: self.remaining - elapsed,
                work_time: self.work_time,
                break_time: self.break_time,
            }
        } else {
            self.set_to(other_mode(self.mode))
        }
    }

    /// The phase-change event that applying `elapsed` nanoseconds emits:
    /// the new phase when the current one expires, nothing otherwise.
    pub open spec fn advance_event(self, elapsed: int) -> Option<Mode> {
        if self.running && elapsed >= self.remaining {
            Some(other_mode(self.mode))
        } else {
            None
        }
    }
}

/// The timer itself: phase, run flag, remaining time, the configured
/// durations, and the last sample of the monotonic clock.
pub struct App {
    pub mode: Mode,
    pub running: bool,
    /// Nanoseconds left in the current phase.
    pub remaining: u128,
    /// The most recent clock sample; elapsed time is measured from here.
    pub last_tick: std::time::Instant,
    /// Nanoseconds a full break phase lasts.
    pub break_time: u128,
    /// Nanoseconds a full work phase lasts.
    pub work_time: u128,
}

impl View for App {
    type V = TimerModel;

    open spec fn view(&self) -> TimerModel {
        TimerModel {
            mode: self.mode,
            running: self.running,
            remaining: self.remaining as int,
            work_time: self.work_time as int,
            break_time: self.break_time as int,
        }
    }
}

impl App {
    /// The timer's invariant, stated on the mathematical state.
    pub open spec fn wf(&self) -> bool {
        self@.wf()
    }

    /// A fresh timer: paused, in the work phase, with the full work duration
    /// remaining, and both durations fixed from the given whole minutes.
    pub fn new(work_time: u64, break_time: u64) -> (app: Self)
        ensures
            app@.mode == Mode::Work,
            app@.running == false,
            app@.remaining == work_time * NANOS_PER_MIN,
            app@.work_time == work_time * NANOS_PER_MIN,
            app@.break_time == break_time * NANOS_PER_MIN,
            app.wf(),
    {
        proof {
            lemma_minutes_fit(work_time);
            lemma_minutes_fit(break_time);
        }
        let work_nanos: u128 = (work_time as u128) * NANOS_PER_MIN;
        let break_nanos: u128 = (break_time as u128) * NANOS_PER_MIN;
        App {
            mode: Mode::Work,
            running: false,
            remaining: work_nanos,
            last_tick: clock::monotonic_now(),
            work_time: work_nanos,
            break_time: break_nanos,
        }
    }

    /// Flips between running and paused, and resynchronises the clock sample
    /// so that time spent paused never counts as elapsed.
    pub fn toggle(&mut self)
        ensures
            final(self)@ == old(self)@.toggled(),
            old(self).wf() ==> final(self).wf(),
    {
        self.running = !self.running;
        self.last_tick = clock::monotonic_now();
    }

    /// Pauses the timer and starts the work phase over at its full duration.
    pub fn reset_to_work(&mut self)
        ensures
            final(self)@ == old(self)@.reset_to(Mode::Work),
            final(self).last_tick == old(self).last_tick,
            final(self).wf(),
    {
        self.running = false;
        self.set_to_work();
    }

    /// Pauses the timer and starts the break phase over at its full duration.
    pub fn reset_to_break(&mut self)
        ensures
            final(self)@ == old(self)@.reset_to(Mode::Break),
            final(self).last_tick == old(self).last_tick,
            final(self).wf(),
    {
        self.running = false;
        self.set_to_break();
    }

    /// Skips to the other phase at its full duration. This is the deliberate
    /// user action, so it always pauses the timer: the user must resume by
    /// hand.
    pub fn switch_mode(&mut self)
        ensures
            final(self)@ == old(self)@.switched(),
            final(self).running == false,
            final(self).last_tick == old(self).last_tick,
            final(self).wf(),
    {
        match self.mode {
            Mode::Work => self.reset_to_break(),
            Mode::Break => self.reset_to_work(),
        }
    }

    /// Enters the work phase at its full duration without touching the run
    /// flag: the transition the expiry path takes, so that a running timer
    /// keeps running into the next phase.
    pub fn set_to_work(&mut self)
        ensures
            final(self)@ == old(self)@.set_to(Mode::Work),
            final(self).last_tick == old(self).last_tick,
            final(self).wf(),
    {
        self.mode = Mode::Work;
        self.remaining = self.work_time;
    }

    /// Enters the break phase at its full duration without touching the run
    /// flag: the transition the expiry path takes, so that a running timer
    /// keeps running into the next phase.
    pub fn set_to_break(&mut self)
        ensures
            final(self)@ == old(self)@.set_to(Mode::Break),
            final(self).last_tick == old(self).last_tick,
            final(self).wf(),
    {
        self.mode = Mode::Break;
        self.remaining = self.break_time;
    }

    /// Applies `elapsed` nanoseconds of wall-clock time to the timer and
    /// returns the phase-change event, if the current phase expired.
    ///
    /// A paused timer is left exactly as it was, whatever `elapsed` is. A
    /// running timer whose remaining time exceeds `elapsed` counts down by
    /// exactly `elapsed` and stays in its phase. Otherwise the phase has
    /// expired — meeting the remaining time exactly counts as expiry — and
    /// the timer flips to the other phase at that phase's full duration,
    /// keeps running, and the new phase is returned so the caller can notify
    /// the user. Overshoot beyond the expired phase is discarded.
    pub fn advance(&mut self, elapsed: u128) -> (event: Option<Mode>)
        ensures
            final(self)@ == old(self)@.advanced(elapsed as int),
            event == old(self)@.advance_event(elapsed as int),
            final(self).last_tick == old(self).last_tick,
            old(self).wf() ==> final(self).wf(),
    {
        if !self.running {
            return None;
        }

        if self.remaining > elapsed {
            self.remaining = self.remaining - elapsed;
            None
        } else {
            match self.mode {
                Mode::Work => {
                    self.set_to_break();
                }
                Mode::Break => {
                    self.set_to_work();
                }
            }
            Some(self.mode)
        }
    }

    /// The per-poll step: samples the monotonic clock, measures the time
    /// since the previous sample, and applies it with [`App::advance`].
    ///
    /// A paused timer returns at once, leaving every field alone — the stale
    /// clock sample is resynchronised by the next [`App::toggle`], so time
    /// spent paused is never deducted. On a running timer the clock sample
    /// is refreshed before anything else, so repeated or delayed calls never
    /// deduct the same interval twice. The clock decides how much time has
    /// passed, so the outcome is one of the [`TimerModel::advanced`] states;
    /// everything else about it is pinned down for every possible elapsed
    /// time.
    pub fn tick(&mut self) -> (event: Option<Mode>)
        ensures
            exists|elapsed: int|
                #![auto]
                0 <= elapsed && final(self)@ == old(self)@.advanced(elapsed) && event == old(
                    self,
                )@.advance_event(elapsed),
            !old(self).running ==> *final(self) == *old(self) && event is None,
            final(self).running == old(self).running,
            final(self).work_time == old(self).work_time,
            final(self).break_time == old(self).break_time,
            old(self).wf() ==> final(self).wf(),
    {
        if !self.running {
            proof {
                assert(self@ == old(self)@.advanced(0));
                assert(old(self)@.advance_event(0) is None);
            }
            return None;
        }

        let now = clock::monotonic_now();
        let elapsed = clock::nanos_between(&self.last_tick, &now);
        self.last_tick = now;

        let event = self.advance(elapsed);
        proof {
            assert(self@ == old(self)@.advanced(elapsed as int));
            assert(event == old(self)@.advance_event(elapsed as int));
        }
        event
    }
}

/// Applying elapsed time to a paused timer changes nothing and emits no
/// event, whatever the elapsed time is.
pub proof fn lemma_advance_paused_is_noop(m: TimerModel, elapsed: int)
    requires
        !m.running,
    ensures
        m.advanced(elapsed) == m,
        m.advance_event(elapsed) is None,
{
}

/// While a running timer's remaining time exceeds the elapsed time, applying
/// it deducts exactly the elapsed time — strictly decreasing the remaining
/// time whenever any time passed at all — and leaves the phase, the run flag
/// and the configured durations alone, emitting no event.
pub proof fn lemma_advance_counts_down(m: TimerModel, elapsed: int)
    requires
        m.running,
        0 <= elapsed < m.remaining,
    ensures
        m.advanced(elapsed).remaining == m.remaining - elapsed,
        elapsed > 0 ==> m.advanced(elapsed).remaining < m.remaining,
        m.advanced(elapsed).mode == m.mode,
        m.advanced(elapsed).running == m.running,
        m.advanced(elapsed).work_time == m.work_time,
        m.advanced(elapsed).break_time == m.break_time,
        m.advance_event(elapsed) is None,
{
}

/// When the elapsed time meets or exceeds a running timer's remaining time,
/// the phase expires: the timer flips to the other phase at that phase's
/// full configured duration — not the duration less the overshoot — keeps
/// its run flag, and emits exactly one event carrying the new phase.
pub proof fn lemma_advance_expires(m: TimerModel, elapsed: int)
    requires
        m.running,
        elapsed >= m.remaining,
    ensures
        m.advanced(elapsed).mode == other_mode(m.mode),
        m.advanced(elapsed).remaining == m.duration_of(other_mode(m.mode)),
        m.advanced(elapsed).running == m.running,
        m.advanced(elapsed).work_time == m.work_time,
        m.advanced(elapsed).break_time == m.break_time,
        m.advance_event(elapsed) == Some(other_mode(m.mode)),
{
}

/// Once a phase has expired, the amount of overshoot is irrelevant: any two
/// elapsed times at or past the remaining time lead to the same state and
/// the same event. A single step crosses at most one phase boundary and
/// grants the new phase no carried-over credit.
pub proof fn lemma_expiry_ignores_overshoot(m: TimerModel, e1: int, e2: int)
    requires
        m.running,
        e1 >= m.remaining,
        e2 >= m.remaining,
    ensures
        m.advanced(e1) == m.advanced(e2),
        m.advance_event(e1) == m.advance_event(e2),
{
}

/// Skipping to the other phase always pauses the timer, and skipping twice
/// returns the phase to its original value, with the remaining time reset to
/// the full configured duration of the phase entered — both times.
pub proof fn lemma_switch_mode_round_trip(m: TimerModel)
    ensures
        m.switched().running == false,
        m.switched().switched().running == false,
        m.switched().mode == other_mode(m.mode),
        m.switched().switched().mode == m.mode,
        m.switched().remaining == m.duration_of(other_mode(m.mode)),
        m.switched().switched().remaining == m.duration_of(m.mode),
{
}

/// Two consecutive run/pause toggles restore the state exactly: the phase
/// and the remaining time are unaffected by a toggle pair.
pub proof fn lemma_toggle_twice_is_identity(m: TimerModel)
    ensures
        m.toggled().toggled() == m,
{
}

/// Every operation preserves the timer's invariant: applying any
/// non-negative elapsed time to a well-formed state yields a well-formed
/// state, as do a toggle, a skip, and both resets.
pub proof fn lemma_operations_preserve_wf(m: TimerModel, elapsed: int)
    requires
        m.wf(),
        0 <= elapsed,
    ensures
        m.advanced(elapsed).wf(),
        m.toggled().wf(),
        m.switched().wf(),
        m.reset_to(Mode::Work).wf(),
        m.reset_to(Mode::Break).wf(),
{
}

/// The minutes-and-seconds reading of a whole number of seconds, as a clock
/// display shows it.
pub fn split_minutes_seconds(total_secs: u64) -> (r: (u64, u64))
    ensures
        r.0 == total_secs / 60,
        r.1 == total_secs % 60,
        r.1 < 60,
        total_secs == r.0 * 60 + r.1,
{
    (total_secs / 60, total_secs % 60)
}

/// A whole number of minutes, converted to nanoseconds, fits in `u128`.
proof fn lemma_minutes_fit(minutes: u64)
    ensures
        minutes * NANOS_PER_MIN <= u128::MAX,
{
    assert(minutes * NANOS_PER_MIN <= u64::MAX * NANOS_PER_MIN) by (nonlinear_arith);
    assert(u64::MAX * NANOS_PER_MIN <= u128::MAX);
}

} // verus!
