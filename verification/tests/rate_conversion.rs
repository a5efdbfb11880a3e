use rubato::Resampler;
use whisper_stt::rate::{FftBlocks, RateConverter, needs_resampling};
use whisper_stt::timing::VAD_FRAME;

#[test]
fn only_the_target_rate_skips_resampling() {
    assert!(!needs_resampling(16000));
    assert!(needs_resampling(8000));
    assert!(needs_resampling(44100));
    assert!(needs_resampling(48000));
}

#[test]
fn identity_requires_one_vad_frame() {
    let converter = RateConverter::Identity;
    assert_eq!(converter.input_frames_required(), VAD_FRAME);
}

#[test]
fn fft_mode_requires_the_scheduled_block() {
    let converter = RateConverter::Fft { input_frames_next: 1440 };
    assert_eq!(converter.input_frames_required(), 1440);
}

#[test]
fn identity_conversion_returns_input_unchanged() {
    let converter = RateConverter::Identity;
    let mono: Vec<i16> = (0..VAD_FRAME as i16).collect();
    let frame = converter.convert_identity(&mono);
    assert_eq!(frame, mono);
    assert_eq!(frame.len(), VAD_FRAME);
}

#[test]
fn fft_resampler_block_yields_exactly_one_vad_frame() {
    // the external FFT resampler, as the capture session builds it
    let mut resampler = rubato::FftFixedOut::<f32>::new(48000, 16000, VAD_FRAME, 2, 1).unwrap();
    let mut output = resampler.output_buffer_allocate(true);
    for _ in 0..4 {
        let need = resampler.input_frames_next();
        assert!(need >= 1);
        let input = vec![0.25f32; need];
        let (consumed, produced) =
            resampler.process_into_buffer(&[&input], &mut output, None).unwrap();
        // feeding exactly input_frames_next() yields exactly one frame
        assert_eq!(consumed, need);
        assert_eq!(produced, VAD_FRAME);
    }
}

#[test]
fn fft_schedule_fits_the_declared_maximum() {
    let resampler = rubato::FftFixedOut::<f32>::new(44100, 16000, VAD_FRAME, 2, 1).unwrap();
    let blocks = FftBlocks {
        input_frames_max: resampler.input_frames_max(),
        input_frames_next: resampler.input_frames_next(),
    };
    assert!(1 <= blocks.input_frames_next);
    assert!(blocks.input_frames_next <= blocks.input_frames_max);
}
