use tts_playback::playback::AudioEntry;
use tts_playback::playback::PlaybackCommand;
use tts_playback::playback::PlaybackError;
use tts_playback::playback::PlaybackManager;
use tts_playback::playback::SinkEffect;

fn entry(text: &str, audio: &str) -> AudioEntry {
    AudioEntry { text_content: text.to_string(), audio_data: audio.to_string() }
}

#[test]
fn fresh_manager_state() {
    let m = PlaybackManager::new();
    assert_eq!(m.command_queue.len(), 0);
    assert!(m.sink_present);
    assert!(m.sink_empty);
    assert!(m.sentence_stash.is_none());
    assert!(m.is_idle);
}

#[test]
fn play_emits_decoded_audio() {
    // "AQID" is the standard base64 encoding of the bytes [1, 2, 3]; the
    // effect must carry the decoded bytes, not the encoded text.
    let mut m = PlaybackManager::new();
    m.submit(PlaybackCommand::Play(entry("hello", "AQID")));
    let fx = m.process_command_queue();
    assert_eq!(
        fx,
        vec![
            SinkEffect::Notify("hello".to_string()),
            SinkEffect::AppendAudio(vec![1, 2, 3]),
            SinkEffect::WaitUntilEnd,
        ]
    );
    assert_eq!(m.command_queue.len(), 0);
}

#[test]
fn play_with_empty_payload() {
    // The empty string is well-formed base64 for zero bytes.
    let mut m = PlaybackManager::new();
    m.submit(PlaybackCommand::Play(entry("quiet", "")));
    let fx = m.process_command_queue();
    assert_eq!(
        fx,
        vec![
            SinkEffect::Notify("quiet".to_string()),
            SinkEffect::AppendAudio(vec![]),
            SinkEffect::WaitUntilEnd,
        ]
    );
}

#[test]
fn pause_resume_round_trip() {
    let mut m = PlaybackManager::new();
    m.submit(PlaybackCommand::Pause("S".to_string()));
    m.submit(PlaybackCommand::Resume);
    let fx = m.process_command_queue();
    assert_eq!(
        fx,
        vec![
            SinkEffect::Notify(String::new()),
            SinkEffect::PauseSink,
            SinkEffect::RestoreSentence("S".to_string()),
            SinkEffect::ResumeSink,
        ]
    );
    assert!(m.sentence_stash.is_none());
}

#[test]
fn resume_without_pause_yields_empty_sentence() {
    let mut m = PlaybackManager::new();
    m.submit(PlaybackCommand::Resume);
    let fx = m.process_command_queue();
    assert_eq!(
        fx,
        vec![SinkEffect::RestoreSentence(String::new()), SinkEffect::ResumeSink]
    );
}

#[test]
fn stop_then_play_makes_fresh_sink() {
    let mut m = PlaybackManager::new();
    m.submit(PlaybackCommand::Stop);
    m.submit(PlaybackCommand::Play(entry("again", "AQID")));
    let fx = m.process_command_queue();
    assert_eq!(
        fx,
        vec![
            SinkEffect::Notify(String::new()),
            SinkEffect::StopSink,
            SinkEffect::Notify("again".to_string()),
            SinkEffect::MakeSink,
            SinkEffect::AppendAudio(vec![1, 2, 3]),
            SinkEffect::WaitUntilEnd,
        ]
    );
    assert!(m.sink_present);
    assert!(m.sink_empty);
}

#[test]
fn busy_sink_defers_play_and_everything_behind_it() {
    let mut m = PlaybackManager::new();
    m.sink_empty = false;
    m.submit(PlaybackCommand::Play(entry("waiting", "AQID")));
    m.submit(PlaybackCommand::Clear);
    let fx = m.process_command_queue();
    // The deferred Play still announces its sentence, but nothing runs and
    // the whole queue stays in place.
    assert_eq!(fx, vec![SinkEffect::Notify("waiting".to_string())]);
    assert_eq!(m.command_queue.len(), 2);
    // Once the sink drains, a later pass executes the queue in order.
    m.sink_empty = true;
    let fx2 = m.process_command_queue();
    assert_eq!(
        fx2,
        vec![
            SinkEffect::Notify("waiting".to_string()),
            SinkEffect::AppendAudio(vec![1, 2, 3]),
            SinkEffect::WaitUntilEnd,
            SinkEffect::ClearSink,
        ]
    );
    assert_eq!(m.command_queue.len(), 0);
}

#[test]
fn plays_do_not_overlap() {
    let mut m = PlaybackManager::new();
    m.submit(PlaybackCommand::Play(entry("first", "AQID")));
    m.submit(PlaybackCommand::Play(entry("second", "BAU=")));
    let fx = m.process_command_queue();
    // "BAU=" is the standard base64 encoding of the bytes [4, 5]. Every
    // effect of the second utterance comes after the first has drained.
    assert_eq!(
        fx,
        vec![
            SinkEffect::Notify("first".to_string()),
            SinkEffect::AppendAudio(vec![1, 2, 3]),
            SinkEffect::WaitUntilEnd,
            SinkEffect::Notify("second".to_string()),
            SinkEffect::AppendAudio(vec![4, 5]),
            SinkEffect::WaitUntilEnd,
        ]
    );
}

#[test]
fn bad_payload_does_not_block_the_queue() {
    let mut m = PlaybackManager::new();
    m.submit(PlaybackCommand::Play(entry("bad", "!!!not base64!!!")));
    m.submit(PlaybackCommand::Play(entry("good", "AQID")));
    let fx = m.process_command_queue();
    // The malformed payload is announced, then skipped; the well-formed one
    // behind it still plays.
    assert_eq!(
        fx,
        vec![
            SinkEffect::Notify("bad".to_string()),
            SinkEffect::Notify("good".to_string()),
            SinkEffect::AppendAudio(vec![1, 2, 3]),
            SinkEffect::WaitUntilEnd,
        ]
    );
    assert_eq!(m.command_queue.len(), 0);
}

#[test]
fn execution_follows_submission_order() {
    let mut m = PlaybackManager::new();
    m.submit(PlaybackCommand::Pause("p".to_string()));
    m.submit(PlaybackCommand::Clear);
    m.submit(PlaybackCommand::Resume);
    m.submit(PlaybackCommand::Stop);
    let fx = m.process_command_queue();
    assert_eq!(
        fx,
        vec![
            SinkEffect::Notify(String::new()),
            SinkEffect::PauseSink,
            SinkEffect::ClearSink,
            SinkEffect::RestoreSentence("p".to_string()),
            SinkEffect::ResumeSink,
            SinkEffect::Notify(String::new()),
            SinkEffect::StopSink,
        ]
    );
}

#[test]
fn pause_overwrites_the_stash() {
    // The stash is a one-slot channel: the sentence handed back on Resume is
    // the one from the latest Pause.
    let mut m = PlaybackManager::new();
    m.submit(PlaybackCommand::Pause("older".to_string()));
    m.submit(PlaybackCommand::Pause("newer".to_string()));
    m.submit(PlaybackCommand::Resume);
    let fx = m.process_command_queue();
    assert!(fx.contains(&SinkEffect::RestoreSentence("newer".to_string())));
    assert!(!fx.contains(&SinkEffect::RestoreSentence("older".to_string())));
}

#[test]
fn commands_on_a_missing_sink_do_nothing_to_the_device() {
    let mut m = PlaybackManager::new();
    m.submit(PlaybackCommand::Stop);
    m.submit(PlaybackCommand::Pause("s".to_string()));
    m.submit(PlaybackCommand::Resume);
    m.submit(PlaybackCommand::Clear);
    let fx = m.process_command_queue();
    assert_eq!(
        fx,
        vec![
            SinkEffect::Notify(String::new()),
            SinkEffect::StopSink,
            SinkEffect::Notify(String::new()),
            SinkEffect::RestoreSentence("s".to_string()),
        ]
    );
    assert!(!m.sink_present);
}

#[test]
fn handle_command_reports_a_decode_failure() {
    let mut m = PlaybackManager::new();
    let r = m.handle_command(PlaybackCommand::Play(entry("x", "not-base64***")));
    assert_eq!(r, Err(PlaybackError::AudioDecode));
    // The failure leaves the manager untouched.
    assert!(m.sink_present);
    assert!(m.sink_empty);
}
