//! The lifecycle of the silence timer.
//!
//! A timer is either idle or alive. While alive, a background countdown emits an
//! "elapsed" signal every interval. This module keeps the book on that lifecycle:
//! it decides whether a `start` or a `stop` is legitimate, and leaves the countdown
//! itself to whoever owns the thread.
//!
//! Starting a timer that is alive and stopping one that is idle are contract
//! violations. `start` and `stop` rule them out by their preconditions; `try_start`
//! and `try_stop` take any timer and report the violation.

use vstd::prelude::*;

verus! {

/// The silence interval used unless another one is configured, in milliseconds.
pub const DEFAULT_INTERVAL_MS: u64 = 2000;

/// A misuse of the timer: a state-machine invariant was broken by the caller.
#[derive(Clone, Copy, Debug, PartialEq, Eq, Structural)]
pub enum TimerError {
    /// A start was asked for while a countdown was alive.
    AlreadyRunning,
    /// A stop was asked for while no countdown was alive.
    NotRunning,
}

/// The timer as a mathematical object.
pub struct TimerModel {
    /// Whether a countdown is alive.
    pub alive: bool,
    /// The interval between two "elapsed" signals, in milliseconds.
    pub interval_ms: u64,
}

impl TimerModel {
    /// The idle timer with the given interval.
    pub open spec fn idle(interval_ms: u64) -> TimerModel {
        TimerModel { alive: false, interval_ms }
    }

    /// An idle timer, brought to life.
    pub open spec fn start(self) -> TimerModel
        recommends
            !self.alive,
    {
        TimerModel { alive: true, ..self }
    }

    /// A timer that is alive, made idle.
    pub open spec fn stop(self) -> TimerModel
        recommends
            self.alive,
    {
        TimerModel { alive: false, ..self }
    }

    /// What an attempt to start makes of any timer, and what it answers: an idle
    /// timer comes to life, one that is alive stays as it is and the misuse is
    /// reported.
    pub open spec fn try_start(self) -> (TimerModel, Result<(), TimerError>) {
        if self.alive {
            (self, Err(TimerError::AlreadyRunning))
        } else {
            (self.start(), Ok(()))
        }
    }

    /// What an attempt to stop makes of any timer, and what it answers: a timer
    /// that is alive becomes idle, an idle one stays as it is and the misuse is
    /// reported.
    pub open spec fn try_stop(self) -> (TimerModel, Result<(), TimerError>) {
        if self.alive {
            (self.stop(), Ok(()))
        } else {
            (self, Err(TimerError::NotRunning))
        }
    }
}

/// A restartable, cancellable countdown.
#[derive(Debug)]
pub struct Timer {
    alive: bool,
    interval_ms: u64,
}

impl View for Timer {
    type V = TimerModel;

    closed spec fn view(&self) -> TimerModel {
        TimerModel { alive: self.alive, interval_ms: self.interval_ms }
    }
}

impl Timer {
    /// An idle timer with the default interval.
    pub fn new() -> (t: Timer)
        ensures
            t@ == TimerModel::idle(DEFAULT_INTERVAL_MS),
    {
        Timer { alive: false, interval_ms: DEFAULT_INTERVAL_MS }
    }

    /// An idle timer that signals every `interval_ms` milliseconds.
    pub fn with_interval(interval_ms: u64) -> (t: Timer)
        ensures
            t@ == TimerModel::idle(interval_ms),
    {
        Timer { alive: false, interval_ms }
    }

    /// Whether a countdown is alive.
    pub fn is_alive(&self) -> (b: bool)
        ensures
            b == self@.alive,
    {
        self.alive
    }

    /// The interval between two "elapsed" signals, in milliseconds.
    pub fn interval_ms(&self) -> (ms: u64)
        ensures
            ms == self@.interval_ms,
    {
        self.interval_ms
    }

    /// Brings an idle timer to life. To start a timer that is alive is a contract
    /// violation: the caller stops it first.
    pub fn start(&mut self)
        requires
            !old(self)@.alive,
        ensures
            final(self)@ == old(self)@.start(),
    {
        self.alive = true;
    }

    /// Cancels the countdown of a timer that is alive. To stop an idle timer is a
    /// contract violation: every `stop` is paired with a `start` before it.
    pub fn stop(&mut self)
        requires
            old(self)@.alive,
        ensures
            final(self)@ == old(self)@.stop(),
    {
        self.alive = false;
    }

    /// Starts the timer if it is idle. A timer that is alive is left as it is and
    /// the violation is reported.
    pub fn try_start(&mut self) -> (r: Result<(), TimerError>)
        ensures
            (final(self)@, r) == old(self)@.try_start(),
    {
        if self.is_alive() {
            Err(TimerError::AlreadyRunning)
        } else {
            self.start();
            Ok(())
        }
    }

    /// Stops the timer if it is alive. An idle timer is left as it is and the
    /// violation is reported: a stop without a start is never a silent no-op.
    pub fn try_stop(&mut self) -> (r: Result<(), TimerError>)
        ensures
            (final(self)@, r) == old(self)@.try_stop(),
    {
        if self.is_alive() {
            self.stop();
            Ok(())
        } else {
            Err(TimerError::NotRunning)
        }
    }
}

/// A stop that is paired with a start succeeds and leaves the timer as it was
/// before the start.
pub proof fn lemma_stop_pairs_with_start(t: TimerModel)
    requires
        !t.alive,
    ensures
        t.start().alive,
        t.start().stop() == t,
        t.try_start() == (t.start(), Ok::<(), TimerError>(())),
        t.start().try_stop() == (t, Ok::<(), TimerError>(())),
{
}

/// A stop without a start is reported and changes nothing. So is a second stop
/// after any stop: stopping is not a silent no-op.
pub proof fn lemma_unpaired_stop_is_reported(t: TimerModel)
    ensures
        !t.alive ==> t.try_stop() == (t, Err::<(), TimerError>(TimerError::NotRunning)),
        t.try_stop().0.try_stop() == (
            t.try_stop().0,
            Err::<(), TimerError>(TimerError::NotRunning),
        ),
        TimerModel::idle(t.interval_ms).try_stop().1 == Err::<(), TimerError>(
            TimerError::NotRunning,
        ),
{
}

/// A start while the timer is alive is reported and changes nothing: no two
/// countdowns are alive at a time.
pub proof fn lemma_double_start_is_reported(t: TimerModel)
    ensures
        t.alive ==> t.try_start() == (t, Err::<(), TimerError>(TimerError::AlreadyRunning)),
        t.try_start().0.try_start() == (
            t.try_start().0,
            Err::<(), TimerError>(TimerError::AlreadyRunning),
        ),
{
}

} // verus!
