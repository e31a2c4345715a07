//! The segmentation state machine as a mathematical object.
//!
//! A `Machine` is what the orchestrator knows at the top of a loop iteration. An
//! `Input` is one thing it observes, an `Action` is what the observation asks the
//! surrounding loop to do. `Machine::step` is the whole transition relation; runs
//! of inputs and the counts taken over them are folds of it.

use vstd::prelude::*;
use crate::state::SpeechState;
use crate::text::contains_word;
use crate::timer::{TimerError, TimerModel};

verus! {

/// What the surrounding loop has to do after an observation.
#[derive(Clone, Copy, Debug, PartialEq, Eq, Structural)]
pub enum Action {
    /// Nothing.
    Idle,
    /// Cancel the countdown, wait for it to exit, and let go of its signal source.
    StopTimer,
    /// Start a countdown and retain its signal source.
    StartTimer,
    /// Cancel the countdown, then start a new one and retain its signal source.
    RestartTimer,
    /// Finalize the decoding session, hand the transcript over, and begin the next
    /// cycle with a fresh session, an idle timer and no signal source.
    Finalize,
}

/// One observation of the orchestrator.
pub enum Input {
    /// The retained signal source delivered a value: `true` for "elapsed".
    Signal(bool),
    /// The decoding session returned this transcript for the audio so far.
    Snippet(Seq<char>),
    /// The decoding session failed on the audio so far.
    DecodeFailed,
}

/// What a step leaves behind: the next machine, and the action it asks for or the
/// timer misuse it ran into.
pub struct Step {
    pub next: Machine,
    pub outcome: Result<Action, TimerError>,
}

/// The orchestrator's knowledge between two observations.
pub struct Machine {
    /// The configured wake word.
    pub wake_word: Seq<char>,
    /// The phase of the current cycle.
    pub state: SpeechState,
    /// The transcript last taken note of in `Ready`; empty before the first.
    pub previous: Seq<char>,
    /// The silence timer.
    pub timer: TimerModel,
    /// Whether a signal source is retained.
    pub watching: bool,
}

impl Machine {
    /// The machine at the beginning of a cycle.
    pub open spec fn fresh(wake_word: Seq<char>, interval_ms: u64) -> Machine {
        Machine {
            wake_word,
            state: SpeechState::Listening,
            previous: Seq::empty(),
            timer: TimerModel::idle(interval_ms),
            watching: false,
        }
    }

    /// The machines that a cycle can pass through.
    ///
    /// A signal source is retained exactly while the timer is alive, and that is
    /// only in `Ready`, from the first transcript that was taken note of. A cycle
    /// is `Complete` once the source has signalled: the timer is stopped and the
    /// source let go.
    pub open spec fn wf(self) -> bool {
        match self.state {
            SpeechState::Listening => !self.watching && !self.timer.alive && self.previous.len()
                == 0,
            SpeechState::Ready => self.watching == self.timer.alive && (!self.watching
                ==> self.previous.len() == 0),
            SpeechState::Complete => !self.watching && !self.timer.alive,
        }
    }

    /// A value arrived from the signal source.
    ///
    /// Without a retained source there is nothing to observe. An "elapsed" signal
    /// stops the timer, lets go of the source and completes the cycle. Where a
    /// source is retained although the timer is idle, to stop the timer would be a
    /// misuse: it is reported and the machine stays as it is. No well-formed
    /// machine is in that position.
    pub open spec fn on_signal(self, elapsed: bool) -> Step {
        if !self.watching || !elapsed {
            Step { next: self, outcome: Ok(Action::Idle) }
        } else if self.timer.alive {
            Step {
                next: Machine {
                    state: SpeechState::Complete,
                    timer: self.timer.stop(),
                    watching: false,
                    ..self
                },
                outcome: Ok(Action::StopTimer),
            }
        } else {
            Step { next: self, outcome: Err(TimerError::NotRunning) }
        }
    }

    /// A transcript was decoded.
    ///
    /// `Listening` looks for the wake word and nothing else. `Ready` takes note of a
    /// transcript that differs from the previous one and restarts the silence
    /// timer; the same transcript again is no news. `Complete` hands the command
    /// over and begins the next cycle.
    pub open spec fn on_snippet(self, text: Seq<char>) -> Step {
        match self.state {
            SpeechState::Listening => Step {
                next: if contains_word(text, self.wake_word) {
                    Machine { state: SpeechState::Ready, ..self }
                } else {
                    self
                },
                outcome: Ok(Action::Idle),
            },
            SpeechState::Ready => if text == self.previous {
                Step { next: self, outcome: Ok(Action::Idle) }
            } else {
                Step {
                    next: Machine {
                        previous: text,
                        timer: if self.timer.alive {
                            self.timer.stop().start()
                        } else {
                            self.timer.start()
                        },
                        watching: true,
                        ..self
                    },
                    outcome: Ok(
                        if self.timer.alive {
                            Action::RestartTimer
                        } else {
                            Action::StartTimer
                        },
                    ),
                }
            },
            SpeechState::Complete => Step {
                next: Machine::fresh(self.wake_word, self.timer.interval_ms),
                outcome: Ok(Action::Finalize),
            },
        }
    }

    /// Decoding failed: the failure is reported and nothing changes.
    pub open spec fn on_decode_error(self) -> Step {
        Step { next: self, outcome: Ok(Action::Idle) }
    }

    /// The transition on one observation.
    pub open spec fn step(self, input: Input) -> Step {
        match input {
            Input::Signal(elapsed) => self.on_signal(elapsed),
            Input::Snippet(text) => self.on_snippet(text),
            Input::DecodeFailed => self.on_decode_error(),
        }
    }

    /// The machine after a run of observations.
    pub open spec fn run(self, inputs: Seq<Input>) -> Machine
        decreases inputs.len(),
    {
        if inputs.len() == 0 {
            self
        } else {
            self.run(inputs.drop_last()).step(inputs.last()).next
        }
    }

    /// What the last observation of a non-empty run led to.
    pub open spec fn last_outcome(self, inputs: Seq<Input>) -> Result<Action, TimerError>
        recommends
            inputs.len() > 0,
    {
        self.run(inputs.drop_last()).step(inputs.last()).outcome
    }

    /// How many observations of the run asked for a hand-over.
    pub open spec fn deliveries(self, inputs: Seq<Input>) -> nat
        decreases inputs.len(),
    {
        if inputs.len() == 0 {
            0
        } else {
            self.deliveries(inputs.drop_last()) + if self.last_outcome(inputs) == Ok::<
                Action,
                TimerError,
            >(Action::Finalize) {
                1nat
            } else {
                0nat
            }
        }
    }

    /// How many observations of the run took the machine from `Listening` to
    /// `Ready`.
    pub open spec fn ready_entries(self, inputs: Seq<Input>) -> nat
        decreases inputs.len(),
    {
        if inputs.len() == 0 {
            0
        } else {
            let before = self.run(inputs.drop_last());
            self.ready_entries(inputs.drop_last()) + if before.state == SpeechState::Listening
                && before.step(inputs.last()).next.state == SpeechState::Ready {
                1nat
            } else {
                0nat
            }
        }
    }

    /// How many observations of the run asked for a countdown to be started.
    pub open spec fn timer_starts(self, inputs: Seq<Input>) -> nat
        decreases inputs.len(),
    {
        if inputs.len() == 0 {
            0
        } else {
            let outcome = self.last_outcome(inputs);
            self.timer_starts(inputs.drop_last()) + if outcome == Ok::<Action, TimerError>(
                Action::StartTimer,
            ) || outcome == Ok::<Action, TimerError>(Action::RestartTimer) {
                1nat
            } else {
                0nat
            }
        }
    }
}

} // verus!
