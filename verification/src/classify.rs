//! Frame classifier: earshot's voice-activity detector, treated as an opaque
//! oracle. Each 30 ms frame is classified as speech or silence; nothing is
//! assumed about which answer comes back, so the segmenter downstream is
//! correct for every possible classification.

use vstd::prelude::*;

use crate::timing::VAD_FRAME;

verus! {

#[verifier::external_type_specification]
#[verifier::external_body]
pub struct ExVoiceActivityDetector(earshot::VoiceActivityDetector);

#[verifier::external_type_specification]
#[verifier::external_body]
pub struct ExEarshotError(earshot::Error);

/// Relies on `earshot::VoiceActivityDetector::predict_16khz`: classifies one
/// frame of 16 kHz mono PCM. Frames over 480 samples overrun its internal
/// downsampling buffer, so the precondition keeps them out; a 480-sample
/// frame is a valid 30 ms size, so no error comes back for one.
pub assume_specification [ earshot::VoiceActivityDetector::predict_16khz ](
    detector: &mut earshot::VoiceActivityDetector,
    frame: &[i16],
) -> (r: Result<bool, earshot::Error>)
    requires
        frame@.len() <= 480,
    ensures
        frame@.len() == 480 ==> r is Ok,
;

/// Relies on `earshot::VoiceActivityDetector::new_with_model`: a fresh
/// detector using the ES_ALPHA model at the VERY_AGGRESSIVE profile, as the
/// capture pipeline is configured.
#[verifier::external_body]
pub fn new_detector() -> earshot::VoiceActivityDetector {
    earshot::VoiceActivityDetector::new_with_model(
        earshot::VoiceActivityModel::ES_ALPHA,
        earshot::VoiceActivityProfile::VERY_AGGRESSIVE,
    )
}

/// Classify one voice-activity frame: true for speech, false for silence.
pub fn classify_frame(detector: &mut earshot::VoiceActivityDetector, frame: &Vec<i16>) -> (r: bool)
    requires
        frame@.len() == VAD_FRAME,
{
    match detector.predict_16khz(frame.as_slice()) {
        Ok(is_speech) => is_speech,
        Err(_) => false,
    }
}

} // verus!
