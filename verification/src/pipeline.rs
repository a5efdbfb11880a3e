//! The per-session capture pipeline: raw interleaved PCM pushed by the audio
//! callback flows through a streaming ring buffer, is downmixed to mono,
//! brought to the target rate, classified, and segmented. Segment audio
//! accumulates in an output ring; each `SpeechEnd(n)` leaves exactly `n`
//! samples there for the transcriber, popped with `pop_segment` before
//! processing continues.
//!
//! When the device runs at the target rate, `output_to` drives everything.
//! Otherwise the FFT resampler lives outside this crate (it computes in
//! floating point): the caller drains one native-rate mono block with
//! `take_native_block`, resamples it, and hands back exactly one
//! voice-activity frame with `push_resampled_frame`; this side enforces the
//! block-size contract and does everything else. Classification itself is an
//! opaque oracle — every contract here holds for every answer the classifier
//! can give, and `Segmenter::step` states the exact per-frame behaviour for a
//! known classification.

use vstd::prelude::*;

use crate::classify::{classify_frame, new_detector};
use crate::device::StreamConfig;
use crate::downmix::{downmix, downmixed};
use crate::rate::{FFT_INPUT_MAX, FftBlocks, RateConverter};
use crate::ring::{SampleRing, fits, ring_capacity, ring_contents};
use crate::segment::{Segmenter, VadActivity, VadStatus};
use crate::timing::{DEFAULT_SEGMENT_SEPARATOR_SILENCE_MS, SAMPLE_RATE, VAD_FRAME, to_frames};

verus! {

/// Ceiling on one transcription's sample count: the transcriber's ~30 s
/// window at the target rate.
pub const MAX_TRANSCRIPTION_SAMPLES: usize = 30 * SAMPLE_RATE;

/// The larger of two integers.
pub open spec fn imax(a: int, b: int) -> int {
    if a >= b {
        a
    } else {
        b
    }
}

/// End-of-segment threshold in frames for a configured silence interval:
/// the requested (or default) duration in whole frames, and at least one
/// frame so a segment can only end on a silent frame.
pub open spec fn spec_silence_frames(silence_interval_ms: Option<u64>) -> int {
    let ms: int = match silence_interval_ms {
        Some(ms) => ms as int,
        None => DEFAULT_SEGMENT_SEPARATOR_SILENCE_MS as int,
    };
    imax(1, ms * SAMPLE_RATE / 1000 / (VAD_FRAME as int))
}

/// Capacity of the raw input ring: one second of interleaved audio, or twice
/// the largest block anyone pops from it, whichever is larger.
pub open spec fn spec_input_ring_capacity(config: StreamConfig, fft: Option<FftBlocks>) -> int {
    let max_vad_input: int = match fft {
        Some(blocks) => blocks.input_frames_max as int,
        None => VAD_FRAME as int,
    };
    imax(
        config.sample_rate * config.channels,
        imax(config.buffer_size * 2, max_vad_input * 2),
    )
}

/// What a returned status says about the session around the call: `Silence`
/// and `Speech` report no boundary (the segment state is as it was),
/// `SpeechStart` opens a segment, and `SpeechEnd(n)` closes the open segment
/// leaving exactly `n` poppable samples for `pop_segment`.
pub open spec fn status_describes(pre: ResamplingVad, post: ResamplingVad, status: VadStatus) -> bool {
    match status {
        VadStatus::Silence => !pre.is_active() && !post.is_active() && post.pending_of() is None,
        VadStatus::Speech => pre.is_active() && post.is_active() && post.pending_of() is None,
        VadStatus::SpeechStart => !pre.is_active() && post.is_active() && post.pending_of() is None,
        VadStatus::SpeechEnd(n) => pre.is_active() && !post.is_active() && post.pending_of() == Some(n)
            && post.segment_contents().len() == n,
    }
}

/// One capture session's resampling voice-activity pipeline.
pub struct ResamplingVad {
    detector: earshot::VoiceActivityDetector,
    ring: SampleRing,
    converter: RateConverter,
    channels: u16,
    seg: Segmenter,
    out: SampleRing,
    pending_segment: Option<usize>,
}

impl ResamplingVad {
    /// Raw interleaved samples queued for processing.
    pub closed spec fn input_contents(self) -> Seq<i16> {
        ring_contents(self.ring)
    }

    /// Capacity of the raw input ring.
    pub closed spec fn input_capacity(self) -> nat {
        ring_capacity(self.ring)
    }

    /// Segment audio queued for the transcriber.
    pub closed spec fn segment_contents(self) -> Seq<i16> {
        ring_contents(self.out)
    }

    /// Capacity of the segment output ring.
    pub closed spec fn segment_capacity(self) -> nat {
        ring_capacity(self.out)
    }

    pub closed spec fn converter_of(self) -> RateConverter {
        self.converter
    }

    pub closed spec fn channels_of(self) -> u16 {
        self.channels
    }

    /// End-of-segment threshold, in frames of silence.
    pub closed spec fn silence_frames_of(self) -> usize {
        self.seg.silence_frames
    }

    /// Whether a speech segment is currently open.
    pub closed spec fn is_active(self) -> bool {
        self.seg.state.active
    }

    /// A finalized segment's sample count, not yet popped.
    pub closed spec fn pending_of(self) -> Option<usize> {
        self.pending_segment
    }

    /// Whether this session converts through the external FFT resampler.
    pub closed spec fn is_fft(self) -> bool {
        self.converter is Fft
    }

    /// Raw interleaved samples one conversion consumes.
    pub closed spec fn spec_raw_needed(self) -> int {
        self.converter.spec_input_frames_required() * self.channels
    }

    /// Raw samples still missing before the next conversion can run.
    pub closed spec fn spec_missing(self) -> int {
        if self.spec_raw_needed() <= self.input_contents().len() {
            0
        } else {
            self.spec_raw_needed() - self.input_contents().len()
        }
    }

    /// Session invariant: a well-formed segmenter and converter, mono or
    /// stereo input, and an output ring that holds exactly the open
    /// segment's buffered audio — or exactly the finalized segment awaiting
    /// `pop_segment`, or nothing.
    pub closed spec fn wf(self) -> bool {
        &&& self.seg.wf()
        &&& (self.channels == 1 || self.channels == 2)
        &&& self.converter.wf()
        &&& ring_capacity(self.ring) <= usize::MAX
        &&& ring_contents(self.ring).len() <= ring_capacity(self.ring)
        &&& ring_capacity(self.out) <= usize::MAX
        &&& ring_contents(self.out).len() <= ring_capacity(self.out)
        &&& match self.pending_segment {
            Some(n) => !self.seg.state.active && ring_contents(self.out).len() == n,
            None => ring_contents(self.out).len() == self.seg.expected_ring_len(),
        }
    }

    /// Fields that no processing call changes over a session's lifetime.
    pub closed spec fn same_session(self, other: ResamplingVad) -> bool {
        &&& self.channels == other.channels
        &&& self.seg.silence_frames == other.seg.silence_frames
        &&& ring_capacity(self.ring) == ring_capacity(other.ring)
        &&& ring_capacity(self.out) == ring_capacity(other.out)
    }

    /// Build the pipeline for one session: a fresh detector and segmenter, an
    /// input ring sized for the session's largest block, and an empty output
    /// ring. A session at the target rate takes no resampler schedule; any
    /// other rate takes the block schedule of the externally built FFT
    /// resampler.
    pub fn with_silence_interval(
        config: &StreamConfig,
        silence_interval_ms: Option<u64>,
        fft: Option<FftBlocks>,
    ) -> (r: ResamplingVad)
        requires
            config.wf(),
            (config.sample_rate == SAMPLE_RATE) <==> fft is None,
            fft matches Some(blocks) ==> blocks.wf(),
            silence_interval_ms matches Some(ms) ==> ms * SAMPLE_RATE <= usize::MAX,
        ensures
            r.wf(),
            !r.is_active(),
            r.pending_of() is None,
            r.channels_of() == config.channels,
            r.converter_of() == (match fft {
                Some(blocks) => RateConverter::Fft { input_frames_next: blocks.input_frames_next },
                None => RateConverter::Identity,
            }),
            r.silence_frames_of() == spec_silence_frames(silence_interval_ms),
            r.input_contents() == Seq::<i16>::empty(),
            r.input_capacity() == spec_input_ring_capacity(*config, fft),
            r.segment_contents() == Seq::<i16>::empty(),
            r.segment_capacity() == 2 * MAX_TRANSCRIPTION_SAMPLES,
    {
        let ms: u64 = match silence_interval_ms {
            Some(ms) => ms,
            None => DEFAULT_SEGMENT_SEPARATOR_SILENCE_MS,
        };
        let frames = to_frames(ms);
        let silence_frames: usize = if frames >= 1 {
            frames
        } else {
            1
        };
        let (converter, max_vad_input): (RateConverter, usize) = match fft {
            Some(blocks) => (
                RateConverter::Fft { input_frames_next: blocks.input_frames_next },
                blocks.input_frames_max,
            ),
            None => (RateConverter::Identity, VAD_FRAME),
        };
        let one_second = if config.channels == 2 {
            (config.sample_rate as usize) * 2
        } else {
            config.sample_rate as usize
        };
        let largest_block = if config.buffer_size as usize * 2 >= max_vad_input * 2 {
            config.buffer_size as usize * 2
        } else {
            max_vad_input * 2
        };
        let input_capacity = if one_second >= largest_block {
            one_second
        } else {
            largest_block
        };
        ResamplingVad {
            detector: new_detector(),
            ring: SampleRing::with_capacity(input_capacity),
            converter,
            channels: config.channels,
            seg: Segmenter::new(silence_frames),
            out: SampleRing::with_capacity(2 * MAX_TRANSCRIPTION_SAMPLES),
            pending_segment: None,
        }
    }

    /// Raw interleaved samples the next conversion needs in total.
    pub fn input_frames_next(&self) -> (n: usize)
        requires
            self.wf(),
        ensures
            n == self.spec_raw_needed(),
    {
        let required = self.converter.input_frames_required();
        if self.channels == 2 {
            required * 2
        } else {
            required
        }
    }

    /// Raw samples still missing before the next conversion can run; zero
    /// means a block is ready.
    pub fn missing_frames(&self) -> (n: usize)
        requires
            self.wf(),
        ensures
            n == self.spec_missing(),
    {
        let needed = self.input_frames_next();
        let have = self.ring.len();
        if needed <= have {
            0
        } else {
            needed - have
        }
    }

    /// The finalized segment awaiting `pop_segment`, if any.
    pub fn pending_segment_samples(&self) -> (r: Option<usize>)
        ensures
            r == self.pending_of(),
    {
        self.pending_segment
    }

    /// Whether a speech segment is currently open.
    pub fn speech_active(&self) -> (r: bool)
        ensures
            r == self.is_active(),
    {
        self.seg.state.active
    }

    /// Append raw interleaved samples from the capture callback: the longest
    /// prefix that fits is queued, the rest is dropped (overflow is a soft
    /// degradation, surfaced through the returned count).
    pub fn push_raw(&mut self, samples: &Vec<i16>) -> (pushed: usize)
        requires
            old(self).wf(),
        ensures
            final(self).wf(),
            old(self).same_session(*final(self)),
            pushed == fits(
                old(self).input_contents(),
                old(self).input_capacity(),
                samples@,
            ),
            final(self).input_contents() == old(self).input_contents() + samples@.take(
                pushed as int,
            ),
            final(self).segment_contents() == old(self).segment_contents(),
            final(self).pending_of() == old(self).pending_of(),
            final(self).is_active() == old(self).is_active(),
            final(self).converter_of() == old(self).converter_of(),
    {
        self.ring.push(samples)
    }

    /// Pop one ready raw block and downmix it to mono.
    fn take_mono_block(&mut self) -> (mono: Vec<i16>)
        requires
            old(self).wf(),
            old(self).spec_missing() == 0,
        ensures
            final(self).wf(),
            old(self).same_session(*final(self)),
            mono@ == downmixed(
                old(self).input_contents().take(old(self).spec_raw_needed()),
                old(self).channels_of(),
            ),
            mono@.len() == old(self).converter_of().spec_input_frames_required(),
            final(self).input_contents() == old(self).input_contents().skip(
                old(self).spec_raw_needed(),
            ),
            final(self).segment_contents() == old(self).segment_contents(),
            final(self).pending_of() == old(self).pending_of(),
            final(self).is_active() == old(self).is_active(),
            final(self).converter_of() == old(self).converter_of(),
    {
        let raw_needed = self.input_frames_next();
        let raw = self.ring.pop(raw_needed);
        assert(raw@ == old(self).input_contents().take(old(self).spec_raw_needed()));
        proof {
            if self.channels == 2 {
                assert(raw@.len() as int % 2int == 0);
            }
        }
        let mono = match downmix(&raw, self.channels) {
            Ok(mono) => mono,
            Err(_) => {
                proof {
                    assert(false);
                }
                Vec::new()
            },
        };
        proof {
            if self.channels == 1 {
                assert(mono@.len() == old(self).spec_raw_needed());
            } else {
                assert(mono@.len() == old(self).spec_raw_needed() / 2);
            }
        }
        mono
    }

    /// Classify one target-rate frame and feed it to the segmenter,
    /// recording a finalized segment for `pop_segment`. The exact per-frame
    /// behaviour for a known classification is `Segmenter::step`'s contract;
    /// here the classification is the oracle's, so the postcondition states
    /// what holds whichever answer it gave.
    fn ingest_frame(&mut self, frame: &Vec<i16>) -> (status: VadStatus)
        requires
            old(self).wf(),
            old(self).pending_of() is None,
            frame@.len() == VAD_FRAME,
        ensures
            final(self).wf(),
            old(self).same_session(*final(self)),
            final(self).input_contents() == old(self).input_contents(),
            final(self).converter_of() == old(self).converter_of(),
            status_describes(*old(self), *final(self), status),
    {
        let is_speech = classify_frame(&mut self.detector, frame);
        let ev = self.seg.step(frame, is_speech, &mut self.out);
        match ev {
            Some(VadActivity::SpeechStart) => VadStatus::SpeechStart,
            Some(VadActivity::SpeechEnd(n)) => {
                self.pending_segment = Some(n);
                VadStatus::SpeechEnd(n)
            },
            None => {
                if self.seg.state.active {
                    VadStatus::Speech
                } else {
                    VadStatus::Silence
                }
            },
        }
    }

    /// Drive the pipeline over every ready block (target-rate sessions
    /// only): pop, downmix, classify, segment — until a segment boundary is
    /// hit or the input ring runs dry. `Silence`/`Speech` report starvation;
    /// a `SpeechEnd(n)` must be answered with `pop_segment(n)` before the
    /// next call.
    #[verifier::loop_isolation(false)]
    pub fn output_to(&mut self) -> (status: VadStatus)
        requires
            old(self).wf(),
            old(self).pending_of() is None,
            !old(self).is_fft(),
        ensures
            final(self).wf(),
            old(self).same_session(*final(self)),
            final(self).converter_of() == old(self).converter_of(),
            status_describes(*old(self), *final(self), status),
            status is Silence || status is Speech ==> final(self).spec_missing() > 0,
    {
        let ghost entry = *old(self);
        loop
            invariant
                self.wf(),
                self.pending_of() is None,
                !self.is_fft(),
                entry.same_session(*self),
                self.converter_of() == entry.converter_of(),
                self.is_active() == old(self).is_active(),
            decreases ring_contents(self.ring).len(),
        {
            if self.missing_frames() > 0 {
                if self.speech_active() {
                    return VadStatus::Speech;
                } else {
                    return VadStatus::Silence;
                }
            }
            let mono = self.take_mono_block();
            let frame = self.converter.convert_identity(&mono);
            let status = self.ingest_frame(&frame);
            match status {
                VadStatus::Silence => {},
                VadStatus::Speech => {},
                VadStatus::SpeechStart => {
                    return VadStatus::SpeechStart;
                },
                VadStatus::SpeechEnd(n) => {
                    return VadStatus::SpeechEnd(n);
                },
            }
        }
    }

    /// Drain one ready native-rate mono block for the external FFT resampler
    /// (resampling sessions only).
    pub fn take_native_block(&mut self) -> (mono: Vec<i16>)
        requires
            old(self).wf(),
            old(self).is_fft(),
            old(self).spec_missing() == 0,
        ensures
            final(self).wf(),
            old(self).same_session(*final(self)),
            mono@ == downmixed(
                old(self).input_contents().take(old(self).spec_raw_needed()),
                old(self).channels_of(),
            ),
            mono@.len() == old(self).converter_of().spec_input_frames_required(),
            final(self).input_contents() == old(self).input_contents().skip(
                old(self).spec_raw_needed(),
            ),
            final(self).segment_contents() == old(self).segment_contents(),
            final(self).pending_of() == old(self).pending_of(),
            final(self).is_active() == old(self).is_active(),
            final(self).converter_of() == old(self).converter_of(),
    {
        self.take_mono_block()
    }

    /// Hand back exactly one resampled voice-activity frame, along with the
    /// resampler's next input-block size; the frame is classified and
    /// segmented like any other.
    pub fn push_resampled_frame(
        &mut self,
        frame: &Vec<i16>,
        input_frames_next: usize,
    ) -> (status: VadStatus)
        requires
            old(self).wf(),
            old(self).is_fft(),
            old(self).pending_of() is None,
            frame@.len() == VAD_FRAME,
            1 <= input_frames_next <= FFT_INPUT_MAX,
        ensures
            final(self).wf(),
            old(self).same_session(*final(self)),
            final(self).converter_of() == (RateConverter::Fft { input_frames_next }),
            final(self).input_contents() == old(self).input_contents(),
            status_describes(*old(self), *final(self), status),
    {
        self.converter = RateConverter::Fft { input_frames_next };
        self.ingest_frame(frame)
    }

    /// Remove a finalized segment's samples for the transcriber: exactly the
    /// `count` announced by its `SpeechEnd`, oldest first, leaving the
    /// output ring empty.
    pub fn pop_segment(&mut self, count: usize) -> (samples: Vec<i16>)
        requires
            old(self).wf(),
            old(self).pending_of() == Some(count),
        ensures
            final(self).wf(),
            old(self).same_session(*final(self)),
            samples@ == old(self).segment_contents(),
            samples@.len() == count,
            final(self).segment_contents() == Seq::<i16>::empty(),
            final(self).pending_of() is None,
            final(self).input_contents() == old(self).input_contents(),
            final(self).is_active() == old(self).is_active(),
            final(self).converter_of() == old(self).converter_of(),
    {
        let samples = self.out.pop(count);
        self.pending_segment = None;
        proof {
            assert(samples@ =~= old(self).segment_contents());
            assert(ring_contents(self.out) =~= Seq::<i16>::empty());
        }
        samples
    }
}

} // verus!
