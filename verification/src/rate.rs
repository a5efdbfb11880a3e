//! Rate converter: bridges the device's native sample rate and the pipeline's
//! fixed target rate in whole blocks. Each conversion consumes exactly the
//! number of native-rate mono samples the converter asks for and yields
//! exactly one voice-activity frame. When the device already runs at the
//! target rate the conversion degenerates to a copy; otherwise an FFT-based
//! block resampler built outside this crate does the numeric work, and this
//! module holds its block schedule and enforces the exact block-size
//! contract.

use vstd::prelude::*;

use crate::timing::VAD_FRAME;

verus! {

/// The pipeline could not be assembled for the negotiated stream parameters.
#[derive(Clone, PartialEq, Eq, Debug)]
pub enum ResamplingVadSetupError {
    Vad(VadSetupError),
    Resampler(ResamplerSetupError),
}

/// Errors while setting up the voice-activity detector. Nothing produces
/// one today — detector construction cannot fail — but the failure path
/// stays explicit for callers.
#[derive(Clone, Copy, PartialEq, Eq, Debug)]
pub struct VadSetupError;

/// The FFT resampler could not be built for the negotiated rate.
#[derive(Clone, PartialEq, Eq, Debug)]
pub struct ResamplerSetupError(pub String);

/// Ceiling on FFT input block sizes, in frames.
pub const FFT_INPUT_MAX: usize = 1048576;

/// Block schedule of an FFT resampler built outside this crate: the largest
/// input block it may ever ask for, and the input block it asks for first.
#[derive(PartialEq, Eq, Structural, Clone, Copy, Debug)]
pub struct FftBlocks {
    pub input_frames_max: usize,
    pub input_frames_next: usize,
}

impl FftBlocks {
    pub open spec fn wf(self) -> bool {
        1 <= self.input_frames_next <= self.input_frames_max <= FFT_INPUT_MAX
    }
}

/// Whether a device rate needs rate conversion to reach the target rate.
pub fn needs_resampling(sample_rate: u32) -> (r: bool)
    ensures
        r == (sample_rate != crate::timing::SAMPLE_RATE),
{
    sample_rate != (crate::timing::SAMPLE_RATE as u32)
}

/// One session's rate conversion mode.
pub enum RateConverter {
    /// The device runs at the target rate; blocks pass through unchanged.
    Identity,
    /// An external FFT resampler does the numeric work; this side tracks how
    /// many native-rate mono samples its next block needs.
    Fft { input_frames_next: usize },
}

impl RateConverter {
    pub open spec fn wf(self) -> bool {
        match self {
            RateConverter::Identity => true,
            RateConverter::Fft { input_frames_next } => 1 <= input_frames_next <= FFT_INPUT_MAX,
        }
    }

    /// Native-rate mono samples that must be supplied for the next
    /// conversion, exactly.
    pub open spec fn spec_input_frames_required(self) -> int {
        match self {
            RateConverter::Identity => VAD_FRAME as int,
            RateConverter::Fft { input_frames_next } => input_frames_next as int,
        }
    }

    /// Native-rate mono samples that must be supplied for the next
    /// conversion — no more, no less.
    pub fn input_frames_required(&self) -> (n: usize)
        ensures
            n == self.spec_input_frames_required(),
    {
        match self {
            RateConverter::Identity => VAD_FRAME,
            RateConverter::Fft { input_frames_next } => *input_frames_next,
        }
    }

    /// Target-rate conversion of one block when the device already runs at
    /// the target rate: exactly one voice-activity frame, the input
    /// unchanged.
    pub fn convert_identity(&self, mono: &Vec<i16>) -> (frame: Vec<i16>)
        requires
            self is Identity,
            mono@.len() == self.spec_input_frames_required(),
        ensures
            frame@ == mono@,
            frame@.len() == VAD_FRAME,
    {
        let mut frame: Vec<i16> = Vec::new();
        let mut i: usize = 0;
        let n = mono.len();
        while i < n
            invariant
                i <= n,
                n == mono@.len(),
                frame@ == mono@.take(i as int),
            decreases n - i,
        {
            frame.push(mono[i]);
            i = i + 1;
            assert(frame@ =~= mono@.take(i as int));
        }
        assert(frame@ =~= mono@);
        frame
    }
}

} // verus!
