//! Voice-activity segmenter: a two-state hysteresis machine that turns a
//! stream of classified frames (speech / silence) into well-formed speech
//! segments, buffering segment audio into an output ring.
//!
//! While silent, speech opens a segment; while a segment is active, a run of
//! silent frames ends it once the run reaches the end-of-segment threshold.
//! Up to `LINGER_FRAMES` of trailing silence are still buffered so phoneme
//! tails are not clipped; silence past the linger span advances the run
//! without being buffered.

use vstd::prelude::*;

use crate::ring::{SampleRing, fits, ring_capacity, ring_contents};
use crate::timing::{LINGER_FRAMES, VAD_FRAME};

verus! {

/// A sample count.
pub type NSamples = usize;

/// One segment boundary, delivered to the orchestrator in emission order.
#[derive(Clone, Copy, PartialEq, Eq, Debug)]
pub enum VadActivity {
    SpeechStart,
    /// A segment ended; exactly this many samples of it are queued in the
    /// output ring.
    SpeechEnd(NSamples),
}

/// What one polling pass over the available audio observed.
#[derive(Clone, Copy, PartialEq, Eq, Debug)]
pub enum VadStatus {
    /// No segment is active and more input is needed.
    Silence,
    /// A segment just opened.
    SpeechStart,
    /// A segment is active and more input is needed.
    Speech,
    /// A segment just ended, with this many samples queued for it.
    SpeechEnd(NSamples),
}

/// Mutable core of the segmenter. The silence run and the accumulated sample
/// count are meaningful only while `active` is set.
#[derive(Clone, Copy, PartialEq, Eq, Debug)]
pub struct SegmentState {
    /// Whether a speech segment is currently open.
    pub active: bool,
    /// Silent frames seen since the last speech frame of the open segment.
    pub silence_run: usize,
    /// Samples of the open segment that were buffered into the output ring.
    pub accumulated_samples: usize,
}

/// The hysteresis machine plus its configured end-of-segment threshold.
#[derive(Clone, Copy, PartialEq, Eq, Debug)]
pub struct Segmenter {
    pub state: SegmentState,
    /// Silence run, in frames, that ends an active segment.
    pub silence_frames: usize,
}

/// Ghost projection of the segmenter onto what decides segment boundaries.
pub struct HysteresisState {
    pub active: bool,
    pub silence_run: nat,
}

/// Kind of a segment boundary, for stating laws about event order.
pub enum BoundaryKind {
    Start,
    End,
}

/// One transition of the hysteresis machine on a classified frame.
pub open spec fn hys_step(m: HysteresisState, end_frames: nat, is_speech: bool) -> HysteresisState {
    if !m.active {
        if is_speech {
            HysteresisState { active: true, silence_run: 0 }
        } else {
            m
        }
    } else if is_speech {
        HysteresisState { active: true, silence_run: 0 }
    } else if m.silence_run + 1 >= end_frames {
        HysteresisState { active: false, silence_run: 0 }
    } else {
        HysteresisState { active: true, silence_run: m.silence_run + 1 }
    }
}

/// The boundary (if any) that the transition on a classified frame emits.
pub open spec fn hys_event(m: HysteresisState, end_frames: nat, is_speech: bool) -> Option<
    BoundaryKind,
> {
    if !m.active {
        if is_speech {
            Some(BoundaryKind::Start)
        } else {
            None
        }
    } else if !is_speech && m.silence_run + 1 >= end_frames {
        Some(BoundaryKind::End)
    } else {
        None
    }
}

/// Whether the transition on a classified frame buffers that frame into the
/// output ring: the frame that opens a segment, every speech frame of an
/// active segment, and silence within the linger span; never the frame that
/// ends a segment.
pub open spec fn hys_buffers(m: HysteresisState, end_frames: nat, is_speech: bool) -> bool {
    if !m.active {
        is_speech
    } else if !is_speech && m.silence_run + 1 >= end_frames {
        false
    } else {
        is_speech || m.silence_run + 1 <= LINGER_FRAMES
    }
}

/// The machine after a whole sequence of classified frames.
pub open spec fn hys_run(m: HysteresisState, end_frames: nat, inputs: Seq<bool>) -> HysteresisState
    decreases inputs.len(),
{
    if inputs.len() == 0 {
        m
    } else {
        hys_run(hys_step(m, end_frames, inputs[0]), end_frames, inputs.drop_first())
    }
}

/// The segment boundaries a whole sequence of classified frames emits.
pub open spec fn hys_events(m: HysteresisState, end_frames: nat, inputs: Seq<bool>) -> Seq<
    BoundaryKind,
>
    decreases inputs.len(),
{
    if inputs.len() == 0 {
        Seq::empty()
    } else {
        (match hys_event(m, end_frames, inputs[0]) {
            Some(k) => seq![k],
            None => Seq::empty(),
        }) + hys_events(hys_step(m, end_frames, inputs[0]), end_frames, inputs.drop_first())
    }
}

/// Boundaries alternate, starting with the boundary that leaves `active`:
/// from a silent machine the first is a start, then an end, and so on.
pub open spec fn alternates_from(events: Seq<BoundaryKind>, active: bool) -> bool
    decreases events.len(),
{
    events.len() == 0 || {
        &&& (events[0] is Start <==> !active)
        &&& alternates_from(events.drop_first(), !active)
    }
}

/// A boundary flips `active`; no boundary leaves it unchanged.
proof fn lemma_step_boundary_flips(m: HysteresisState, end_frames: nat, is_speech: bool)
    ensures
        hys_event(m, end_frames, is_speech) is Some ==> hys_step(m, end_frames, is_speech).active
            == !m.active,
        hys_event(m, end_frames, is_speech) is None ==> hys_step(m, end_frames, is_speech).active
            == m.active,
        hys_event(m, end_frames, is_speech) matches Some(k) ==> (k is Start <==> !m.active),
{
}

/// Segment well-formedness law: over any sequence of classified frames, the
/// emitted boundaries strictly alternate, so no two starts come without an
/// intervening end and no two ends without an intervening start.
pub proof fn lemma_boundaries_alternate(m: HysteresisState, end_frames: nat, inputs: Seq<bool>)
    ensures
        alternates_from(hys_events(m, end_frames, inputs), m.active),
    decreases inputs.len(),
{
    if inputs.len() > 0 {
        let next = hys_step(m, end_frames, inputs[0]);
        lemma_step_boundary_flips(m, end_frames, inputs[0]);
        lemma_boundaries_alternate(next, end_frames, inputs.drop_first());
        match hys_event(m, end_frames, inputs[0]) {
            Some(k) => {
                assert(hys_events(m, end_frames, inputs) == seq![k] + hys_events(
                    next,
                    end_frames,
                    inputs.drop_first(),
                ));
                assert(hys_events(m, end_frames, inputs).drop_first() =~= hys_events(
                    next,
                    end_frames,
                    inputs.drop_first(),
                ));
            },
            None => {
                assert(hys_events(m, end_frames, inputs) =~= hys_events(
                    next,
                    end_frames,
                    inputs.drop_first(),
                ));
            },
        }
    }
}

/// An all-silence frame sequence of length `k`.
pub open spec fn silence_frames_seq(k: nat) -> Seq<bool> {
    Seq::new(k, |i: int| false)
}

/// Threshold law: feeding silence to an active segment never ends it while
/// the total run stays short of the end-of-segment threshold, and ends it
/// exactly on the frame that makes the run reach the threshold.
pub proof fn lemma_silence_run_threshold(m: HysteresisState, end_frames: nat, k: nat)
    requires
        m.active,
        m.silence_run + k <= end_frames,
    ensures
        m.silence_run + k < end_frames ==> {
            &&& hys_run(m, end_frames, silence_frames_seq(k)) == (HysteresisState {
                active: true,
                silence_run: m.silence_run + k,
            })
            &&& hys_events(m, end_frames, silence_frames_seq(k)) == Seq::<BoundaryKind>::empty()
        },
        m.silence_run + k == end_frames && k >= 1 ==> {
            &&& !hys_run(m, end_frames, silence_frames_seq(k)).active
            &&& hys_events(m, end_frames, silence_frames_seq(k)) == seq![BoundaryKind::End]
            &&& hys_events(m, end_frames, silence_frames_seq((k - 1) as nat)) == Seq::<
                BoundaryKind,
            >::empty()
        },
    decreases k,
{
    if k > 0 {
        let next = hys_step(m, end_frames, false);
        assert(silence_frames_seq(k)[0] == false);
        assert(silence_frames_seq(k).drop_first() =~= silence_frames_seq((k - 1) as nat));
        if m.silence_run + 1 < end_frames {
            lemma_silence_run_threshold(next, end_frames, (k - 1) as nat);
            if m.silence_run + k == end_frames {
                lemma_silence_run_threshold(m, end_frames, (k - 1) as nat);
            }
            assert(hys_events(m, end_frames, silence_frames_seq(k)) =~= hys_events(
                next,
                end_frames,
                silence_frames_seq((k - 1) as nat),
            ));
        } else {
            // the very first silent frame reaches the threshold, so k == 1
            assert(m.silence_run + k == end_frames);
            lemma_inactive_silence_stays_silent(next, end_frames, (k - 1) as nat);
            assert(hys_events(m, end_frames, silence_frames_seq(k)) =~= seq![BoundaryKind::End]);
        }
    }
}

/// Silence keeps an inactive machine inactive and emits nothing.
pub proof fn lemma_inactive_silence_stays_silent(m: HysteresisState, end_frames: nat, k: nat)
    requires
        !m.active,
    ensures
        hys_run(m, end_frames, silence_frames_seq(k)) == m,
        hys_events(m, end_frames, silence_frames_seq(k)) == Seq::<BoundaryKind>::empty(),
    decreases k,
{
    if k > 0 {
        assert(silence_frames_seq(k)[0] == false);
        assert(silence_frames_seq(k).drop_first() =~= silence_frames_seq((k - 1) as nat));
        lemma_inactive_silence_stays_silent(m, end_frames, (k - 1) as nat);
        assert(hys_events(m, end_frames, silence_frames_seq(k)) =~= Seq::<BoundaryKind>::empty());
    }
}

impl Segmenter {
    /// Basic configuration sanity: a segment can only end after at least one
    /// silent frame, and the silence run of an open segment is always short
    /// of the threshold (otherwise the segment would have ended).
    pub open spec fn wf(self) -> bool {
        &&& 1 <= self.silence_frames
        &&& (self.state.active ==> self.state.silence_run < self.silence_frames)
    }

    /// The ghost hysteresis machine this segmenter is in.
    pub open spec fn hys(self) -> HysteresisState {
        HysteresisState { active: self.state.active, silence_run: self.state.silence_run as nat }
    }

    /// Samples the output ring must hold for this segmenter state: the open
    /// segment's buffered audio, or nothing.
    pub open spec fn expected_ring_len(self) -> int {
        if self.state.active {
            self.state.accumulated_samples as int
        } else {
            0
        }
    }

    /// A fresh segmenter: silent, with the given end-of-segment threshold.
    pub fn new(silence_frames: usize) -> (r: Segmenter)
        requires
            1 <= silence_frames,
        ensures
            r.wf(),
            r.silence_frames == silence_frames,
            !r.state.active,
            r.state.silence_run == 0,
            r.state.accumulated_samples == 0,
    {
        Segmenter {
            state: SegmentState { active: false, silence_run: 0, accumulated_samples: 0 },
            silence_frames,
        }
    }

    /// Feed one classified frame. The frame is buffered into `out` exactly
    /// when the hysteresis machine says so (a full ring drops the overflow,
    /// which only shrinks the accumulated count, never corrupts it), and the
    /// returned boundary mirrors the machine's. A `SpeechEnd(n)` leaves
    /// exactly `n` poppable samples in `out`.
    pub fn step(&mut self, frame: &Vec<i16>, is_speech: bool, out: &mut SampleRing) -> (ev: Option<
        VadActivity,
    >)
        requires
            old(self).wf(),
            frame@.len() == VAD_FRAME,
            ring_contents(*old(out)).len() == old(self).expected_ring_len(),
            ring_capacity(*old(out)) <= usize::MAX,
        ensures
            final(self).wf(),
            final(self).silence_frames == old(self).silence_frames,
            ring_capacity(*final(out)) == ring_capacity(*old(out)),
            final(self).hys() == hys_step(
                old(self).hys(),
                old(self).silence_frames as nat,
                is_speech,
            ),
            // the boundary mirrors the hysteresis machine; an end reports the
            // buffered sample count of the segment it closes
            ev == (match hys_event(old(self).hys(), old(self).silence_frames as nat, is_speech) {
                Some(BoundaryKind::Start) => Some(VadActivity::SpeechStart),
                Some(BoundaryKind::End) => Some(
                    VadActivity::SpeechEnd(old(self).state.accumulated_samples),
                ),
                None => None,
            }),
            // the frame lands in the output ring exactly when the machine buffers it
            ring_contents(*final(out)) == (if hys_buffers(
                old(self).hys(),
                old(self).silence_frames as nat,
                is_speech,
            ) {
                ring_contents(*old(out)) + frame@.take(
                    fits(ring_contents(*old(out)), ring_capacity(*old(out)), frame@),
                )
            } else {
                ring_contents(*old(out))
            }),
            // the accumulated count always matches what the ring holds
            ring_contents(*final(out)).len() == final(self).expected_ring_len() + (match ev {
                Some(VadActivity::SpeechEnd(n)) => n as int,
                _ => 0int,
            }),
            ev matches Some(VadActivity::SpeechEnd(n)) ==> ring_contents(*final(out)).len() == n
                && !final(self).state.active,
    {
        if !self.state.active {
            if is_speech {
                let pushed = out.push(frame);
                self.state.active = true;
                self.state.silence_run = 0;
                self.state.accumulated_samples = pushed;
                Some(VadActivity::SpeechStart)
            } else {
                None
            }
        } else if !is_speech && self.state.silence_run + 1 >= self.silence_frames {
            let n = self.state.accumulated_samples;
            self.state.active = false;
            self.state.silence_run = 0;
            self.state.accumulated_samples = 0;
            Some(VadActivity::SpeechEnd(n))
        } else {
            if is_speech {
                self.state.silence_run = 0;
            } else {
                self.state.silence_run = self.state.silence_run + 1;
            }
            if is_speech || self.state.silence_run <= LINGER_FRAMES {
                let pushed = out.push(frame);
                self.state.accumulated_samples = self.state.accumulated_samples + pushed;
            }
            None
        }
    }
}

} // verus!
