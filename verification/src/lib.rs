//! Wake-word triggered command segmentation for a stream of partial transcripts.
//!
//! A processing loop feeds audio to a decoding session and hands every partial
//! transcript to a [`segmenter::Segmenter`]. The segmenter waits for the wake word,
//! follows the spoken command, and decides with the help of a silence timer when
//! the speaker has stopped; it then asks for exactly one hand-over of the final
//! transcript and begins the next cycle.
//!
//! - [`state`]: the phases of a cycle.
//! - [`text`]: wake-word matching.
//! - [`timer`]: the lifecycle of the silence timer.
//! - [`machine`]: the state machine as a mathematical object.
//! - [`segmenter`]: the state machine as it runs.
//! - [`laws`]: what holds of every run.
//! - [`models`]: the choice of model files from a directory listing.

pub mod laws;
pub mod machine;
pub mod models;
pub mod segmenter;
pub mod state;
pub mod text;
pub mod timer;
