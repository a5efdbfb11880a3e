use whisper_stt::timing::{
    DEFAULT_SEGMENT_SEPARATOR_SILENCE_MS, LINGER_FRAMES, SAMPLE_RATE, SPEECH_DETECTION_LINGER_MS,
    VAD_FRAME, to_frames,
};

#[test]
fn vad_frame_is_30ms_at_target_rate() {
    assert_eq!(SAMPLE_RATE, 16000);
    assert_eq!(VAD_FRAME, 480);
    // 480 samples at 16 kHz are exactly 30 ms
    assert_eq!(VAD_FRAME * 1000 / SAMPLE_RATE, 30);
}

#[test]
fn to_frames_default_thresholds() {
    assert_eq!(to_frames(DEFAULT_SEGMENT_SEPARATOR_SILENCE_MS), 8);
    assert_eq!(to_frames(SPEECH_DETECTION_LINGER_MS), 3);
    assert_eq!(LINGER_FRAMES, 3);
}

#[test]
fn to_frames_rounds_down_to_whole_frames() {
    assert_eq!(to_frames(0), 0);
    assert_eq!(to_frames(29), 0);
    assert_eq!(to_frames(30), 1);
    assert_eq!(to_frames(59), 1);
    assert_eq!(to_frames(60), 2);
    assert_eq!(to_frames(1000), 33);
}
