//! The phases of one command-capture cycle.

use vstd::prelude::*;

verus! {

/// Where the current cycle stands. Every cycle begins in `Listening`.
#[derive(Clone, Copy, Debug, PartialEq, Eq, Structural)]
pub enum SpeechState {
    /// Waiting for a transcript that holds the wake word.
    Listening,
    /// The wake word was heard; the spoken command is being followed.
    Ready,
    /// The speaker stopped; the command is due for hand-over.
    Complete,
}

} // verus!
