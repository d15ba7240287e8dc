//! The recording on/off switch: a guard that lets a recording be started
//! only when none is running and stopped only when one is.

use vstd::prelude::*;

verus! {

#[verifier::external_type_specification]
#[verifier::external_body]
pub struct ExPathBuf(std::path::PathBuf);

/// A request to the recording worker: start writing to the given path, or
/// stop the running recording.
pub enum RecordingCommand {
    Start(std::path::PathBuf),
    Stop,
}

/// The two positions of the recording switch, as seen by the shell.
pub enum RecordingControl {
    Start,
    Stop,
}

/// Why a recording request was refused.
#[derive(Debug, Clone, Copy, PartialEq, Eq)]
pub enum RecordingError {
    /// `start_recording` was called while a recording was running.
    AlreadyRecording,
    /// `stop_recording` was called while no recording was running.
    NotRecording,
}

/// Tracks whether a recording is currently running.
pub struct AudioRecordingManager {
    is_recording: bool,
}

impl AudioRecordingManager {
    /// Whether a recording is currently running.
    pub closed spec fn recording(&self) -> bool {
        self.is_recording
    }

    /// A fresh manager: no recording running.
    pub fn new() -> (m: AudioRecordingManager)
        ensures
            !m.recording(),
    {
        AudioRecordingManager { is_recording: false }
    }

    /// Start a recording: succeeds exactly when none is running, and marks
    /// one as running; refused (and nothing changes) otherwise.
    pub fn start_recording(&mut self) -> (r: Result<(), RecordingError>)
        ensures
            match r {
                Ok(_) => !old(self).recording() && final(self).recording(),
                Err(e) => {
                    &&& old(self).recording()
                    &&& final(self).recording()
                    &&& e == RecordingError::AlreadyRecording
                },
            },
    {
        if !self.is_recording {
            self.is_recording = true;
            Ok(())
        } else {
            Err(RecordingError::AlreadyRecording)
        }
    }

    /// Stop the recording: succeeds exactly when one is running, and marks
    /// it as stopped; refused (and nothing changes) otherwise.
    pub fn stop_recording(&mut self) -> (r: Result<(), RecordingError>)
        ensures
            match r {
                Ok(_) => old(self).recording() && !final(self).recording(),
                Err(e) => {
                    &&& !old(self).recording()
                    &&& !final(self).recording()
                    &&& e == RecordingError::NotRecording
                },
            },
    {
        if self.is_recording {
            self.is_recording = false;
            Ok(())
        } else {
            Err(RecordingError::NotRecording)
        }
    }
}

} // verus!
