//! Real-time speech-to-text front end: microphone capture feeds a streaming
//! ring buffer, frames are downmixed to mono, resampled to the pipeline's
//! fixed 16 kHz target rate, and classified by a voice-activity detector whose
//! hysteresis state machine cuts the stream into speech segments for an
//! external transcriber.

pub mod classify;
pub mod device;
pub mod downmix;
pub mod pipeline;
pub mod rate;
pub mod ring;
pub mod segment;
pub mod session;
pub mod timing;
