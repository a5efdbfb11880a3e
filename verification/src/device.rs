//! Input-device configuration: the session's negotiated stream parameters and
//! the rules that pick them from what a device reports. The pipeline's target
//! rate is preferred when the device supports it; otherwise the nearest
//! supported rate is taken and the rate converter bridges the difference. The
//! buffer size approximates 30 ms of audio, quantized to the platform's
//! granularity and clamped to the device's allowed range.

use vstd::prelude::*;

use crate::timing::SAMPLE_RATE;

verus! {

/// Errors while opening or interrogating the input device.
#[derive(Clone, PartialEq, Eq, Debug)]
pub enum InputDeviceError {
    /// The named device is gone or cannot be interrogated.
    Invalid(String),
    /// The device offers no usable configuration.
    NoConfig,
}

/// Selectable buffer sizes follow the platform's granularity; 32 works as a
/// quantum over a wide range of sizes.
pub const ALSA_BUFFER_QUANTUM: u32 = 32;

pub const ALSA_BUFFER_MIN: u32 = 32;

/// Ceiling on sample rates this pipeline accepts from a device, in Hz.
pub const MAX_DEVICE_SAMPLE_RATE: u32 = 768000;

/// Ceiling on device buffer sizes this pipeline accepts, in samples.
pub const MAX_DEVICE_BUFFER_SIZE: u32 = 1048576;

/// One session's negotiated capture parameters, immutable for the session.
#[derive(PartialEq, Eq, Structural, Clone, Copy, Debug)]
pub struct StreamConfig {
    /// Device sample rate, in Hz.
    pub sample_rate: u32,
    /// Interleaved channels: mono or stereo.
    pub channels: u16,
    /// Fixed block size of one capture callback, in frames.
    pub buffer_size: u32,
}

impl StreamConfig {
    pub open spec fn wf(self) -> bool {
        &&& 1 <= self.sample_rate <= MAX_DEVICE_SAMPLE_RATE
        &&& (self.channels == 1 || self.channels == 2)
        &&& 1 <= self.buffer_size <= MAX_DEVICE_BUFFER_SIZE
    }
}

/// The rate picked from a supported range: the target rate when the range
/// contains it, else the range's nearest end.
pub open spec fn spec_select_sample_rate(min_rate: u32, max_rate: u32) -> u32 {
    if min_rate <= SAMPLE_RATE <= max_rate {
        SAMPLE_RATE as u32
    } else if min_rate > SAMPLE_RATE {
        min_rate
    } else {
        max_rate
    }
}

/// `n` rounded up to the buffer-size quantum.
pub open spec fn spec_round_up_to_quantum(n: int) -> int {
    ((n + ALSA_BUFFER_QUANTUM - 1) / (ALSA_BUFFER_QUANTUM as int)) * ALSA_BUFFER_QUANTUM
}

/// The preferred buffer size for a rate: ~30 ms of audio, quantized, and at
/// least the platform minimum.
pub open spec fn spec_preferred_buffer_size(sample_rate: u32) -> int {
    if spec_round_up_to_quantum(sample_rate as int / 30) >= ALSA_BUFFER_MIN {
        spec_round_up_to_quantum(sample_rate as int / 30)
    } else {
        ALSA_BUFFER_MIN as int
    }
}

/// The buffer size picked for a rate: the preferred size, clamped into the
/// device's allowed range when the device reports one.
pub open spec fn spec_select_buffer_size(sample_rate: u32, range: Option<(u32, u32)>) -> int {
    match range {
        None => spec_preferred_buffer_size(sample_rate),
        Some((lo, hi)) => {
            let raised = if spec_preferred_buffer_size(sample_rate) >= lo {
                spec_preferred_buffer_size(sample_rate)
            } else {
                lo as int
            };
            if raised <= hi {
                raised
            } else {
                hi as int
            }
        },
    }
}

/// Pick the capture sample rate from the device's supported range: the target
/// rate when supported, else the nearest end of the range.
pub fn select_sample_rate(min_rate: u32, max_rate: u32) -> (r: u32)
    requires
        min_rate <= max_rate,
    ensures
        r == spec_select_sample_rate(min_rate, max_rate),
{
    let target = SAMPLE_RATE as u32;
    if min_rate <= target && target <= max_rate {
        target
    } else if min_rate > target {
        min_rate
    } else {
        max_rate
    }
}

/// Pick the capture buffer size: ~30 ms of audio quantized to the platform
/// granularity, at least the platform minimum, clamped to the device's range
/// when one is reported.
pub fn select_buffer_size(sample_rate: u32, range: Option<(u32, u32)>) -> (r: u32)
    requires
        sample_rate <= MAX_DEVICE_SAMPLE_RATE,
        range matches Some((lo, hi)) ==> lo <= hi,
    ensures
        r == spec_select_buffer_size(sample_rate, range),
{
    let per_block = sample_rate / 30;
    let quantized = ((per_block + ALSA_BUFFER_QUANTUM - 1) / ALSA_BUFFER_QUANTUM)
        * ALSA_BUFFER_QUANTUM;
    let preferred = if quantized >= ALSA_BUFFER_MIN {
        quantized
    } else {
        ALSA_BUFFER_MIN
    };
    match range {
        None => preferred,
        Some((lo, hi)) => {
            let raised = if preferred >= lo {
                preferred
            } else {
                lo
            };
            if raised <= hi {
                raised
            } else {
                hi
            }
        },
    }
}

/// Negotiate one session's stream parameters from what the device reports.
/// Succeeds exactly when the device offers a usable configuration: a sane
/// rate range, mono or stereo, and a buffer range the picked size fits.
pub fn negotiate_stream_config(
    min_rate: u32,
    max_rate: u32,
    channels: u16,
    buffer_range: Option<(u32, u32)>,
) -> (r: Result<StreamConfig, InputDeviceError>)
    ensures
        ({
            &&& 1 <= min_rate <= max_rate <= MAX_DEVICE_SAMPLE_RATE
            &&& (channels == 1 || channels == 2)
            &&& (buffer_range matches Some((lo, hi)) ==> lo <= hi)
            &&& 1 <= spec_select_buffer_size(
                spec_select_sample_rate(min_rate, max_rate),
                buffer_range,
            ) <= MAX_DEVICE_BUFFER_SIZE
        }) <==> r is Ok,
        r matches Ok(config) ==> {
            &&& config.wf()
            &&& config.sample_rate == spec_select_sample_rate(min_rate, max_rate)
            &&& config.channels == channels
            &&& config.buffer_size == spec_select_buffer_size(config.sample_rate, buffer_range)
        },
        r matches Err(e) ==> e is NoConfig,
{
    if !(1 <= min_rate && min_rate <= max_rate && max_rate <= MAX_DEVICE_SAMPLE_RATE) {
        return Err(InputDeviceError::NoConfig);
    }
    if !(channels == 1 || channels == 2) {
        return Err(InputDeviceError::NoConfig);
    }
    if let Some((lo, hi)) = buffer_range {
        if lo > hi {
            return Err(InputDeviceError::NoConfig);
        }
    }
    let sample_rate = select_sample_rate(min_rate, max_rate);
    let buffer_size = select_buffer_size(sample_rate, buffer_range);
    if !(1 <= buffer_size && buffer_size <= MAX_DEVICE_BUFFER_SIZE) {
        return Err(InputDeviceError::NoConfig);
    }
    Ok(StreamConfig { sample_rate, channels, buffer_size })
}

} // verus!
