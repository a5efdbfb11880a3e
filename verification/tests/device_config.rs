use whisper_stt::device::{
    InputDeviceError, StreamConfig, negotiate_stream_config, select_buffer_size,
    select_sample_rate,
};

#[test]
fn target_rate_is_preferred_when_supported() {
    assert_eq!(select_sample_rate(8000, 48000), 16000);
    assert_eq!(select_sample_rate(16000, 16000), 16000);
}

#[test]
fn nearest_rate_is_taken_when_target_unsupported() {
    // everything above the target: the minimum is nearest
    assert_eq!(select_sample_rate(22050, 96000), 22050);
    // everything below the target: the maximum is nearest
    assert_eq!(select_sample_rate(4000, 8000), 8000);
}

#[test]
fn buffer_size_approximates_30ms_quantized() {
    // 16000 / 30 = 533, rounded up to the next multiple of 32 = 544
    assert_eq!(select_buffer_size(16000, None), 544);
    // 48000 / 30 = 1600 is already a multiple of 32
    assert_eq!(select_buffer_size(48000, None), 1600);
    // tiny rates still get the platform minimum
    assert_eq!(select_buffer_size(100, None), 32);
}

#[test]
fn buffer_size_is_clamped_to_device_range() {
    assert_eq!(select_buffer_size(16000, Some((32, 4096))), 544);
    assert_eq!(select_buffer_size(16000, Some((1024, 4096))), 1024);
    assert_eq!(select_buffer_size(16000, Some((32, 256))), 256);
}

#[test]
fn negotiation_produces_the_expected_config() {
    let config = negotiate_stream_config(8000, 48000, 1, Some((32, 4096))).unwrap();
    assert_eq!(
        config,
        StreamConfig { sample_rate: 16000, channels: 1, buffer_size: 544 }
    );
}

#[test]
fn negotiation_keeps_stereo() {
    let config = negotiate_stream_config(44100, 44100, 2, None).unwrap();
    assert_eq!(config.sample_rate, 44100);
    assert_eq!(config.channels, 2);
    // 44100 / 30 = 1470, rounded up to 1472
    assert_eq!(config.buffer_size, 1472);
}

#[test]
fn negotiation_rejects_unusable_devices() {
    assert_eq!(
        negotiate_stream_config(0, 48000, 1, None),
        Err(InputDeviceError::NoConfig)
    );
    assert_eq!(
        negotiate_stream_config(48000, 8000, 1, None),
        Err(InputDeviceError::NoConfig)
    );
    assert_eq!(
        negotiate_stream_config(8000, 48000, 3, None),
        Err(InputDeviceError::NoConfig)
    );
    assert_eq!(
        negotiate_stream_config(8000, 48000, 1, Some((4096, 32))),
        Err(InputDeviceError::NoConfig)
    );
}
