use whisper_stt::segment::VadActivity;
use whisper_stt::session::{
    SessionAction, SessionEvent, WhisperError, WhisperState, next_action,
};

#[test]
fn second_session_is_rejected_and_first_kept() {
    let mut state = WhisperState::default();
    assert!(!state.running());
    assert!(state.try_begin().is_ok());
    assert!(state.running());
    // a second start fails with AlreadyRunning and leaves the session running
    assert_eq!(state.try_begin(), Err(WhisperError::AlreadyRunning));
    assert!(state.running());
}

#[test]
fn stop_is_idempotent_and_frees_the_slot() {
    let mut state = WhisperState::default();
    state.try_begin().unwrap();
    state.stop();
    assert!(!state.running());
    state.stop();
    assert!(!state.running());
    assert!(state.try_begin().is_ok());
}

#[test]
fn speech_start_notifies_the_application() {
    let action = next_action(SessionEvent::Activity(VadActivity::SpeechStart));
    assert_eq!(action, SessionAction::NotifySpeaking);
}

#[test]
fn speech_end_transcribes_exactly_the_announced_samples() {
    let action = next_action(SessionEvent::Activity(VadActivity::SpeechEnd(17280)));
    assert_eq!(action, SessionAction::Transcribe(17280));
}

#[test]
fn stop_request_finishes_cleanly_without_transcribing() {
    let action = next_action(SessionEvent::StopRequested);
    assert_eq!(action, SessionAction::Finish(Ok(())));
}

#[test]
fn stream_errors_shut_the_session_down_with_that_error() {
    let action = next_action(SessionEvent::StreamError("device unplugged".to_string()));
    assert_eq!(
        action,
        SessionAction::Finish(Err(WhisperError::AudioStreamError(
            "device unplugged".to_string()
        )))
    );
}

#[test]
fn closed_channel_is_a_stream_error() {
    let action = next_action(SessionEvent::ActivityChannelClosed);
    assert!(matches!(
        action,
        SessionAction::Finish(Err(WhisperError::AudioStreamError(_)))
    ));
}
