//! Session orchestration: the process-wide session slot (at most one capture
//! session is live), the structured error taxonomy, the arguments a session
//! starts with, and the event-loop decisions — which activity event leads to
//! a notification, a transcription, or a shutdown.
//!
//! The surrounding application runs the actual loop: it waits on activity
//! events, stream errors and stop requests, performs each returned action
//! (emit a notification, pop the announced sample count and call the
//! transcriber, shut down), and joins the capture and processing threads on
//! shutdown.

use vstd::prelude::*;

use crate::device::InputDeviceError;
use crate::rate::ResamplingVadSetupError;
use crate::segment::VadActivity;

verus! {

/// Fatal session errors, structured so callers can branch on kind.
#[derive(Clone, PartialEq, Eq, Debug)]
pub enum WhisperError {
    /// A session is already live; `start` is rejected, the live session is
    /// untouched.
    AlreadyRunning,
    /// The input device could not be opened or offers no usable
    /// configuration; no partial session is created.
    AudioSetupError(InputDeviceError),
    /// The open stream failed at runtime; the session shuts down.
    AudioStreamError(String),
    /// The resampling and voice-activity pipeline could not be built.
    ResamplingVadSetupError(ResamplingVadSetupError),
}

/// Process-wide session slot. Holds whether a capture session is live; the
/// surrounding application pairs it with the channel that actually signals
/// the running session to stop.
pub struct WhisperState {
    running: bool,
}

impl Default for WhisperState {
    /// A fresh slot with no session live.
    fn default() -> (r: WhisperState)
        ensures
            !r.is_running(),
    {
        WhisperState { running: false }
    }
}

impl WhisperState {
    /// Whether a capture session is currently live.
    pub closed spec fn is_running(self) -> bool {
        self.running
    }

    /// Whether a capture session is currently live.
    pub fn running(&self) -> (r: bool)
        ensures
            r == self.is_running(),
    {
        self.running
    }

    /// Claim the session slot. Fails with `AlreadyRunning` — leaving the
    /// live session untouched — when one is live; otherwise the slot is
    /// taken and the caller owns the new session.
    pub fn try_begin(&mut self) -> (r: Result<(), WhisperError>)
        ensures
            old(self).is_running() <==> r matches Err(WhisperError::AlreadyRunning),
            old(self).is_running() ==> *final(self) == *old(self),
            !old(self).is_running() ==> r is Ok && final(self).is_running(),
    {
        if self.running {
            Err(WhisperError::AlreadyRunning)
        } else {
            self.running = true;
            Ok(())
        }
    }

    /// Release the session slot so a new session may start. Idempotent; a
    /// no-op when no session is live.
    pub fn stop(&mut self)
        ensures
            !final(self).is_running(),
    {
        self.running = false;
    }
}

/// Arguments a capture session starts with. The model path, language and
/// translation flag are opaque here and forwarded to the transcriber.
#[derive(Clone, PartialEq, Eq, Debug)]
pub struct WhisperArgs {
    pub model_path: String,
    pub input_device: String,
    pub lang: String,
    pub translate_to_english: bool,
    /// End-of-segment silence duration, in milliseconds.
    pub silence_interval: u64,
}

/// One wake-up of the session's event loop: whichever of an activity event,
/// a fatal stream error, a closed channel, or an external stop request came
/// first.
#[derive(Clone, PartialEq, Eq, Debug)]
pub enum SessionEvent {
    Activity(VadActivity),
    /// The processing thread hung up without a stop request.
    ActivityChannelClosed,
    /// The capture side reported a fatal stream error.
    StreamError(String),
    /// The application asked the session to stop.
    StopRequested,
}

/// What the event loop does in response to one event.
#[derive(PartialEq, Eq, Debug)]
pub enum SessionAction {
    /// Tell the application the user started speaking (fire-and-forget).
    NotifySpeaking,
    /// Pop exactly this many samples from the output ring and hand them to
    /// the transcriber.
    Transcribe(usize),
    /// Shut the session down — join both threads, drain residual errors,
    /// clear the slot — and report this outcome.
    Finish(Result<(), WhisperError>),
}

/// Decide the event loop's response to one event. A stop request finishes
/// cleanly and never reaches the transcriber, so stopping mid-segment cannot
/// hand it a partial buffer; only a `SpeechEnd(n)` transcribes, and exactly
/// the `n` samples it announced.
pub fn next_action(event: SessionEvent) -> (action: SessionAction)
    ensures
        event matches SessionEvent::Activity(VadActivity::SpeechStart) ==> action
            is NotifySpeaking,
        event matches SessionEvent::Activity(VadActivity::SpeechEnd(n)) ==> action
            == SessionAction::Transcribe(n),
        event is StopRequested ==> action == SessionAction::Finish(Ok::<(), WhisperError>(())),
        event is ActivityChannelClosed ==> (action matches SessionAction::Finish(r) && r
            matches Err(e) && e is AudioStreamError),
        event matches SessionEvent::StreamError(message) ==> action == SessionAction::Finish(
            Err::<(), WhisperError>(WhisperError::AudioStreamError(message)),
        ),
        action is Transcribe <==> event matches SessionEvent::Activity(
            VadActivity::SpeechEnd(_),
        ),
{
    match event {
        SessionEvent::Activity(VadActivity::SpeechStart) => SessionAction::NotifySpeaking,
        SessionEvent::Activity(VadActivity::SpeechEnd(samples)) => SessionAction::Transcribe(
            samples,
        ),
        SessionEvent::ActivityChannelClosed => SessionAction::Finish(
            Err(WhisperError::AudioStreamError("closed unexpectedly".to_string())),
        ),
        SessionEvent::StreamError(message) => SessionAction::Finish(
            Err(WhisperError::AudioStreamError(message)),
        ),
        SessionEvent::StopRequested => SessionAction::Finish(Ok(())),
    }
}

} // verus!
