//! Fixed pipeline timing: the target sample rate, the size of one
//! voice-activity frame, and the conversion from durations to frame counts.

use vstd::prelude::*;

verus! {

/// Target sample rate of the pipeline, in Hz.
pub const SAMPLE_RATE: usize = 16000;

/// Samples in one voice-activity frame (~30 ms of audio at `SAMPLE_RATE`).
pub const VAD_FRAME: usize = 480;

/// Silence span, in milliseconds, during which trailing audio is still
/// buffered after the last speech frame, to avoid clipping phoneme tails.
pub const SPEECH_DETECTION_LINGER_MS: u64 = 90;

/// Default silence span, in milliseconds, after which an active speech
/// segment is finalized.
pub const DEFAULT_SEGMENT_SEPARATOR_SILENCE_MS: u64 = 240;

/// `SPEECH_DETECTION_LINGER_MS` expressed in voice-activity frames.
pub const LINGER_FRAMES: usize = 90 * SAMPLE_RATE / 1000 / VAD_FRAME;

/// Number of whole voice-activity frames that cover `duration_ms`
/// milliseconds of audio at the target sample rate.
pub fn to_frames(duration_ms: u64) -> (frames: usize)
    requires
        duration_ms * SAMPLE_RATE <= usize::MAX,
    ensures
        frames == duration_ms * SAMPLE_RATE / 1000 / (VAD_FRAME as int),
{
    (duration_ms as usize) * SAMPLE_RATE / 1000 / VAD_FRAME
}

} // verus!
