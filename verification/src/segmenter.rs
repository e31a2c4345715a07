//! The orchestrator's decisions.
//!
//! A `Segmenter` is fed what the processing loop observes, one observation at a
//! time, and answers with what the loop has to do next. It holds no thread, no
//! channel and no decoding session: the loop that owns those performs the actions.

use vstd::prelude::*;
use crate::machine::{Action, Input, Machine, Step};
use crate::state::SpeechState;
use crate::text::contains;
use crate::timer::{Timer, TimerError, DEFAULT_INTERVAL_MS};

verus! {

/// One observation of the processing loop.
#[derive(Debug)]
pub enum Event {
    /// The retained signal source delivered a value: `true` for "elapsed".
    Signal(bool),
    /// The decoding session returned this transcript for the audio so far.
    Snippet(String),
    /// The decoding session failed on the audio so far.
    DecodeFailed,
}

impl View for Event {
    type V = Input;

    open spec fn view(&self) -> Input {
        match self {
            Event::Signal(elapsed) => Input::Signal(*elapsed),
            Event::Snippet(text) => Input::Snippet(text@),
            Event::DecodeFailed => Input::DecodeFailed,
        }
    }
}

/// The wake-word and endpoint state machine of one orchestrator.
#[derive(Debug)]
pub struct Segmenter {
    wake_word: String,
    state: SpeechState,
    previous: String,
    timer: Timer,
    watching: bool,
}

impl View for Segmenter {
    type V = Machine;

    closed spec fn view(&self) -> Machine {
        Machine {
            wake_word: self.wake_word@,
            state: self.state,
            previous: self.previous@,
            timer: self.timer@,
            watching: self.watching,
        }
    }
}

impl Segmenter {
    /// A segmenter at the beginning of its first cycle, with the default silence
    /// interval.
    pub fn new(wake_word: String) -> (s: Segmenter)
        ensures
            s@ == Machine::fresh(wake_word@, DEFAULT_INTERVAL_MS),
            s@.wf(),
    {
        Segmenter::with_interval(wake_word, DEFAULT_INTERVAL_MS)
    }

    /// A segmenter at the beginning of its first cycle, whose timer signals every
    /// `interval_ms` milliseconds.
    pub fn with_interval(wake_word: String, interval_ms: u64) -> (s: Segmenter)
        ensures
            s@ == Machine::fresh(wake_word@, interval_ms),
            s@.wf(),
    {
        Segmenter {
            wake_word,
            state: SpeechState::Listening,
            previous: String::new(),
            timer: Timer::with_interval(interval_ms),
            watching: false,
        }
    }

    /// The configured wake word.
    pub fn wake_word(&self) -> (w: &String)
        ensures
            w@ == self@.wake_word,
    {
        &self.wake_word
    }

    /// The transcript last taken note of in `Ready`; empty before the first.
    pub fn previous(&self) -> (p: &String)
        ensures
            p@ == self@.previous,
    {
        &self.previous
    }

    /// The phase of the current cycle.
    pub fn state(&self) -> (s: SpeechState)
        ensures
            s == self@.state,
    {
        self.state
    }

    /// Whether the silence timer is alive.
    pub fn timer_alive(&self) -> (b: bool)
        ensures
            b == self@.timer.alive,
    {
        self.timer.is_alive()
    }

    /// The silence interval, in milliseconds.
    pub fn interval_ms(&self) -> (ms: u64)
        ensures
            ms == self@.timer.interval_ms,
    {
        self.timer.interval_ms()
    }

    /// Whether a signal source is retained. While one is, the loop waits on it
    /// before it turns to the audio queue; once it has signalled, it is let go.
    pub fn awaits_signal(&self) -> (b: bool)
        ensures
            b == self@.watching,
    {
        self.watching
    }

    /// Takes a value that arrived from the signal source. On a well-formed
    /// segmenter the answer is never a misuse.
    pub fn on_signal(&mut self, elapsed: bool) -> (r: Result<Action, TimerError>)
        ensures
            (Step { next: final(self)@, outcome: r }) == old(self)@.on_signal(elapsed),
            old(self)@.wf() ==> final(self)@.wf() && r is Ok,
    {
        if !self.watching || !elapsed {
            return Ok(Action::Idle);
        }
        if !self.timer.is_alive() {
            return Err(TimerError::NotRunning);
        }
        self.timer.stop();
        self.state = SpeechState::Complete;
        self.watching = false;
        Ok(Action::StopTimer)
    }

    /// Takes a transcript that the decoding session returned.
    pub fn on_snippet(&mut self, text: String) -> (action: Action)
        ensures
            (Step { next: final(self)@, outcome: Ok(action) }) == old(self)@.on_snippet(text@),
            old(self)@.wf() ==> final(self)@.wf(),
    {
        match self.state {
            SpeechState::Listening => {
                if contains(text.as_str(), self.wake_word.as_str()) {
                    self.state = SpeechState::Ready;
                }
                Action::Idle
            },
            SpeechState::Ready => {
                if text == self.previous {
                    Action::Idle
                } else {
                    self.previous = text;
                    self.watching = true;
                    if self.timer.is_alive() {
                        self.timer.stop();
                        self.timer.start();
                        Action::RestartTimer
                    } else {
                        self.timer.start();
                        Action::StartTimer
                    }
                }
            },
            SpeechState::Complete => {
                self.state = SpeechState::Listening;
                self.previous = String::new();
                self.timer = Timer::with_interval(self.timer.interval_ms());
                self.watching = false;
                Action::Finalize
            },
        }
    }

    /// Takes note that the decoding session failed. Nothing changes: the cycle
    /// goes on with the next frame.
    pub fn on_decode_error(&mut self) -> (action: Action)
        ensures
            (Step { next: final(self)@, outcome: Ok(action) }) == old(self)@.on_decode_error(),
            old(self)@.wf() ==> final(self)@.wf(),
    {
        Action::Idle
    }

    /// Takes one observation, whatever its kind.
    pub fn step(&mut self, event: Event) -> (r: Result<Action, TimerError>)
        ensures
            (Step { next: final(self)@, outcome: r }) == old(self)@.step(event@),
            old(self)@.wf() ==> final(self)@.wf() && r is Ok,
    {
        match event {
            Event::Signal(elapsed) => self.on_signal(elapsed),
            Event::Snippet(text) => Ok(self.on_snippet(text)),
            Event::DecodeFailed => Ok(self.on_decode_error()),
        }
    }
}

} // verus!
