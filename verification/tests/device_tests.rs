use tts_playback::device::AudioPlaybackManager;
use tts_playback::device::DeviceAction;
use tts_playback::device::PlaybackCommand;

#[test]
fn fresh_device_manager_state() {
    let m = AudioPlaybackManager::new();
    assert_eq!(m.next_id, 0);
    assert_eq!(m.sinks.len(), 0);
    assert_eq!(m.command_queue.len(), 0);
    assert!(m.is_idle);
    assert!(m.current_sink.is_none());
}

#[test]
fn play_audio_hands_out_fresh_ids() {
    let mut m = AudioPlaybackManager::new();
    let (id0, a0) = m.play_audio(vec![1, 2]);
    let (id1, a1) = m.play_audio(vec![3]);
    assert_eq!(id0, 0);
    assert_eq!(id1, 1);
    assert_eq!(
        a0,
        vec![DeviceAction::OpenSink(0), DeviceAction::Append(0, vec![1, 2])]
    );
    assert_eq!(
        a1,
        vec![DeviceAction::OpenSink(1), DeviceAction::Append(1, vec![3])]
    );
    assert_eq!(m.next_id, 2);
    assert_eq!(m.sinks, vec![0, 1]);
    assert_eq!(m.current_sink, Some(1));
}

#[test]
fn stop_forgets_the_current_sink() {
    let mut m = AudioPlaybackManager::new();
    let _ = m.play_audio(vec![7]);
    let actions = m.handle_command(PlaybackCommand::Stop);
    assert_eq!(actions, vec![DeviceAction::StopSink(0)]);
    assert!(m.current_sink.is_none());
    // A second Stop, and pause or resume, now reach no sink at all.
    assert_eq!(m.handle_command(PlaybackCommand::Stop), vec![]);
    assert_eq!(m.handle_command(PlaybackCommand::Pause), vec![]);
    assert_eq!(m.handle_command(PlaybackCommand::Resume), vec![]);
}

#[test]
fn pause_and_resume_act_on_the_current_sink() {
    let mut m = AudioPlaybackManager::new();
    let _ = m.play_audio(vec![9]);
    assert_eq!(m.handle_command(PlaybackCommand::Pause), vec![DeviceAction::PauseSink(0)]);
    assert_eq!(m.handle_command(PlaybackCommand::Resume), vec![DeviceAction::ResumeSink(0)]);
}

#[test]
fn queued_commands_run_in_submission_order() {
    let mut m = AudioPlaybackManager::new();
    m.command_queue.push_back(PlaybackCommand::Play(vec![1]));
    m.command_queue.push_back(PlaybackCommand::Pause);
    m.command_queue.push_back(PlaybackCommand::Resume);
    m.command_queue.push_back(PlaybackCommand::Play(vec![2]));
    m.command_queue.push_back(PlaybackCommand::Stop);
    let actions = m.start_processing_commands();
    assert_eq!(
        actions,
        vec![
            DeviceAction::OpenSink(0),
            DeviceAction::Append(0, vec![1]),
            DeviceAction::PauseSink(0),
            DeviceAction::ResumeSink(0),
            DeviceAction::OpenSink(1),
            DeviceAction::Append(1, vec![2]),
            DeviceAction::StopSink(1),
        ]
    );
    assert_eq!(m.command_queue.len(), 0);
    assert!(m.current_sink.is_none());
}
