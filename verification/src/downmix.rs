//! Channel downmixer: collapses interleaved multi-channel PCM frames into a
//! mono stream. Mono input passes through unchanged; stereo input is averaged
//! pairwise; any other channel count is rejected.

use vstd::prelude::*;

verus! {

/// Channel layouts the downmixer accepts.
#[derive(Clone, Copy, PartialEq, Eq, Debug)]
pub enum DownmixError {
    /// The channel count is neither mono nor stereo.
    UnsupportedChannels,
}

/// Average of one interleaved stereo pair, truncated toward zero.
pub open spec fn pair_average(a: i16, b: i16) -> int {
    if a + b >= 0 {
        (a + b) / 2
    } else {
        -((-(a + b)) / 2)
    }
}

/// The mono stream that downmixing `samples` with `channels` channels yields.
pub open spec fn downmixed(samples: Seq<i16>, channels: u16) -> Seq<i16> {
    if channels == 1 {
        samples
    } else {
        Seq::new(samples.len() / 2, |i: int| pair_average(samples[2 * i], samples[2 * i + 1]) as i16)
    }
}

/// Collapse `samples`, interleaved over `channels` channels, to mono.
/// Mono is a passthrough; stereo averages each interleaved pair; every other
/// channel count is rejected.
pub fn downmix(samples: &Vec<i16>, channels: u16) -> (r: Result<Vec<i16>, DownmixError>)
    requires
        samples@.len() as int % (channels as int) == 0 || !(channels == 1 || channels == 2),
    ensures
        (channels == 1 || channels == 2) <==> r is Ok,
        r matches Ok(mono) ==> mono@ == downmixed(samples@, channels),
{
    if channels == 1 {
        Ok(samples.clone())
    } else if channels == 2 {
        let mut mono: Vec<i16> = Vec::new();
        let pairs = samples.len() / 2;
        let mut i: usize = 0;
        while i < pairs
            invariant
                i <= pairs,
                pairs == samples@.len() / 2,
                2 * pairs <= samples@.len() <= usize::MAX,
                mono@.len() == i,
                forall|j: int| 0 <= j < i ==> mono@[j] == downmixed(samples@, 2)[j],
            decreases pairs - i,
        {
            let a = samples[2 * i] as i32;
            let b = samples[2 * i + 1] as i32;
            let sum = a + b;
            let avg: i32 = if sum >= 0 {
                ((sum as u32) / 2) as i32
            } else {
                -((((-sum) as u32) / 2) as i32)
            };
            assert(avg == pair_average(samples@[2 * i as int], samples@[2 * i as int + 1]));
            mono.push(avg as i16);
            i = i + 1;
        }
        assert(mono@ =~= downmixed(samples@, 2));
        Ok(mono)
    } else {
        Err(DownmixError::UnsupportedChannels)
    }
}

} // verus!
