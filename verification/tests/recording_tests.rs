use tts_playback::recording::AudioRecordingManager;
use tts_playback::recording::RecordingError;

#[test]
fn start_only_when_not_recording() {
    let mut m = AudioRecordingManager::new();
    assert_eq!(m.start_recording(), Ok(()));
    assert_eq!(m.start_recording(), Err(RecordingError::AlreadyRecording));
}

#[test]
fn stop_only_when_recording() {
    let mut m = AudioRecordingManager::new();
    assert_eq!(m.stop_recording(), Err(RecordingError::NotRecording));
    assert_eq!(m.start_recording(), Ok(()));
    assert_eq!(m.stop_recording(), Ok(()));
    assert_eq!(m.stop_recording(), Err(RecordingError::NotRecording));
}

#[test]
fn start_stop_cycle_can_repeat() {
    let mut m = AudioRecordingManager::new();
    assert_eq!(m.start_recording(), Ok(()));
    assert_eq!(m.stop_recording(), Ok(()));
    assert_eq!(m.start_recording(), Ok(()));
    assert_eq!(m.stop_recording(), Ok(()));
}
