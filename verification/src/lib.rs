//! A text-to-speech playback core: queuing, sequencing and control of
//! utterance playback, kept in sync with a "now playing" notification
//! stream.
//!
//! The heart of the crate is [`playback::PlaybackManager`], a single-owner
//! command sequencer that drains a FIFO queue of playback commands against
//! one audio sink and tells its caller, as an ordered list of effects, what
//! device and observer work to perform. [`device`] holds the multi-sink
//! variant of the manager, and [`recording`] the recording on/off switch.

pub mod codec;
pub mod device;
pub mod laws;
pub mod playback;
pub mod recording;
