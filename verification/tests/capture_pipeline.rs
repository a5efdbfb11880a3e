use rubato::Resampler;
use whisper_stt::device::StreamConfig;
use whisper_stt::pipeline::ResamplingVad;
use whisper_stt::rate::FftBlocks;
use whisper_stt::segment::VadStatus;
use whisper_stt::timing::VAD_FRAME;

fn target_rate_config() -> StreamConfig {
    StreamConfig { sample_rate: 16000, channels: 1, buffer_size: 544 }
}

#[test]
fn identity_session_consumes_ready_frames() {
    let config = target_rate_config();
    let mut vad = ResamplingVad::with_silence_interval(&config, Some(240), None);
    assert_eq!(vad.input_frames_next(), VAD_FRAME);
    assert_eq!(vad.missing_frames(), VAD_FRAME);

    assert_eq!(vad.push_raw(&vec![0; 1600]), 1600);
    assert_eq!(vad.missing_frames(), 0);

    // silence in, no boundary out; every complete frame is consumed
    assert_eq!(vad.output_to(), VadStatus::Silence);
    assert!(!vad.speech_active());
    assert!(vad.pending_segment_samples().is_none());
    assert_eq!(vad.missing_frames(), VAD_FRAME - (1600 - 3 * VAD_FRAME));
}

#[test]
fn identity_session_stereo_needs_interleaved_frames() {
    let config = StreamConfig { sample_rate: 16000, channels: 2, buffer_size: 544 };
    let mut vad = ResamplingVad::with_silence_interval(&config, None, None);
    assert_eq!(vad.input_frames_next(), 2 * VAD_FRAME);
    assert_eq!(vad.push_raw(&vec![0; 2 * VAD_FRAME]), 2 * VAD_FRAME);
    assert_eq!(vad.missing_frames(), 0);
    assert_eq!(vad.output_to(), VadStatus::Silence);
    assert_eq!(vad.missing_frames(), 2 * VAD_FRAME);
}

#[test]
fn input_ring_overflow_drops_only_the_excess() {
    let config = target_rate_config();
    let mut vad = ResamplingVad::with_silence_interval(&config, None, None);
    // capacity is one second of audio (16000 samples) for this config
    assert_eq!(vad.push_raw(&vec![0; 20000]), 16000);
    assert_eq!(vad.push_raw(&vec![0; 10]), 0);
}

#[test]
fn resampling_session_round_trips_through_the_fft_resampler() {
    let mut resampler = rubato::FftFixedOut::<f32>::new(48000, 16000, VAD_FRAME, 2, 1).unwrap();
    let mut output = resampler.output_buffer_allocate(true);
    let config = StreamConfig { sample_rate: 48000, channels: 1, buffer_size: 1600 };
    let blocks = FftBlocks {
        input_frames_max: resampler.input_frames_max(),
        input_frames_next: resampler.input_frames_next(),
    };
    let mut vad = ResamplingVad::with_silence_interval(&config, Some(240), Some(blocks));

    assert_eq!(vad.input_frames_next(), blocks.input_frames_next);
    assert_eq!(vad.push_raw(&vec![0; blocks.input_frames_next]), blocks.input_frames_next);
    assert_eq!(vad.missing_frames(), 0);

    // the session drains one native block, the resampler converts it, and
    // exactly one voice-activity frame goes back in
    let mono = vad.take_native_block();
    assert_eq!(mono.len(), blocks.input_frames_next);
    let as_f32: Vec<f32> = mono.iter().map(|&s| s as f32 / 32768.0).collect();
    let (consumed, produced) =
        resampler.process_into_buffer(&[&as_f32], &mut output, None).unwrap();
    assert_eq!(consumed, mono.len());
    assert_eq!(produced, VAD_FRAME);
    let frame: Vec<i16> = output[0][..VAD_FRAME].iter().map(|&v| (v * 32767.0) as i16).collect();

    let status = vad.push_resampled_frame(&frame, resampler.input_frames_next());
    assert_eq!(status, VadStatus::Silence);
    assert_eq!(vad.input_frames_next(), resampler.input_frames_next());
}

#[test]
fn starved_session_reports_how_much_is_missing() {
    let config = target_rate_config();
    let mut vad = ResamplingVad::with_silence_interval(&config, None, None);
    assert_eq!(vad.push_raw(&vec![0; 100]), 100);
    assert_eq!(vad.missing_frames(), VAD_FRAME - 100);
}

#[test]
fn speech_segment_flows_through_to_pop_segment() {
    let config = target_rate_config();
    let mut vad = ResamplingVad::with_silence_interval(&config, Some(240), None);
    // loud synthetic signal the detector classifies as speech (silence is
    // all-zero frames)
    let speech: Vec<i16> = (0..VAD_FRAME as i16).map(|i| i.wrapping_mul(i)).collect();

    let mut started = false;
    for _ in 0..50 {
        assert_eq!(vad.push_raw(&speech), VAD_FRAME);
        match vad.output_to() {
            VadStatus::SpeechStart => {
                started = true;
                break;
            }
            VadStatus::Silence | VadStatus::Speech => {}
            VadStatus::SpeechEnd(_) => panic!("segment cannot end while speech continues"),
        }
    }
    assert!(started, "the detector never heard the synthetic signal as speech");
    assert!(vad.speech_active());

    // feed silence until the run reaches the end-of-segment threshold
    let silent = vec![0i16; VAD_FRAME];
    let mut finished: Option<usize> = None;
    for _ in 0..50 {
        assert_eq!(vad.push_raw(&silent), VAD_FRAME);
        match vad.output_to() {
            VadStatus::SpeechEnd(n) => {
                finished = Some(n);
                break;
            }
            VadStatus::Speech | VadStatus::Silence => {}
            VadStatus::SpeechStart => panic!("a second segment cannot start mid-segment"),
        }
    }
    let n = finished.expect("the silence run must finalize the segment");
    assert_eq!(vad.pending_segment_samples(), Some(n));
    // exactly the announced samples are poppable, and the ring drains
    let audio = vad.pop_segment(n);
    assert_eq!(audio.len(), n);
    assert!(vad.pending_segment_samples().is_none());
    assert!(!vad.speech_active());
}
