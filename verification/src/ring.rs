//! Streaming ring buffer: a fixed-capacity FIFO of 16-bit PCM samples that
//! carries audio between the capture callback and the processing loop, and
//! buffers segment audio for the transcriber.
//!
//! The queue itself is ringbuf's heap-allocated SPSC ring; this module gives
//! it a sequence model (`ring_contents`, `ring_capacity`) and states over that
//! model what each operation does: `push` appends the longest prefix that
//! fits and drops the rest, `pop` removes samples from the front in order.

use vstd::prelude::*;

use ringbuf::traits::{Consumer, Observer, Producer};

verus! {

/// Fixed-capacity FIFO of PCM samples. Pushing past capacity keeps the queue
/// unchanged beyond the prefix that fits; samples are never reordered.
#[verifier::external_body]
pub struct SampleRing {
    rb: ringbuf::HeapRb<i16>,
}

/// The samples queued in `r`, oldest first.
pub uninterp spec fn ring_contents(r: SampleRing) -> Seq<i16>;

/// The fixed number of slots `r` was created with.
pub uninterp spec fn ring_capacity(r: SampleRing) -> nat;

/// How many of `samples` fit into free space of a ring holding `contents`.
pub open spec fn fits(contents: Seq<i16>, capacity: nat, samples: Seq<i16>) -> int {
    if samples.len() <= capacity - contents.len() {
        samples.len() as int
    } else {
        capacity - contents.len()
    }
}

/// How many samples a `pop` of `count` removes from `contents`.
pub open spec fn popped(contents: Seq<i16>, count: int) -> int {
    if count <= contents.len() {
        count
    } else {
        contents.len() as int
    }
}

impl SampleRing {
    /// Relies on ringbuf's `SharedRb::new`: an empty ring buffer with exactly
    /// `capacity` slots. `new` panics on a zero capacity, which the
    /// precondition rules out.
    #[verifier::external_body]
    pub fn with_capacity(capacity: usize) -> (r: SampleRing)
        requires
            1 <= capacity,
        ensures
            ring_capacity(r) == capacity,
            ring_contents(r) == Seq::<i16>::empty(),
    {
        SampleRing { rb: ringbuf::HeapRb::new(capacity) }
    }

    /// Relies on ringbuf's `Observer::occupied_len`: the number of samples
    /// currently queued.
    #[verifier::external_body]
    pub fn len(&self) -> (n: usize)
        ensures
            n == ring_contents(*self).len(),
            n <= ring_capacity(*self),
    {
        self.rb.occupied_len()
    }

    /// Relies on ringbuf's `Observer::capacity`.
    #[verifier::external_body]
    pub fn capacity(&self) -> (n: usize)
        ensures
            n == ring_capacity(*self),
    {
        self.rb.capacity().get()
    }

    /// Relies on ringbuf's `Producer::push_slice`: appends the longest prefix
    /// of `samples` that fits into free space, in order, and returns how many
    /// samples were appended; the rest are dropped.
    #[verifier::external_body]
    pub fn push(&mut self, samples: &Vec<i16>) -> (pushed: usize)
        ensures
            ring_contents(*old(self)).len() <= ring_capacity(*old(self)),
            pushed == fits(ring_contents(*old(self)), ring_capacity(*old(self)), samples@),
            ring_contents(*final(self)) == ring_contents(*old(self)) + samples@.take(pushed as int),
            ring_capacity(*final(self)) == ring_capacity(*old(self)),
    {
        self.rb.push_slice(samples.as_slice())
    }

    /// Relies on ringbuf's `Consumer::pop_iter`: removes the oldest `count`
    /// samples (all of them when fewer are queued) and returns them in order.
    #[verifier::external_body]
    pub fn pop(&mut self, count: usize) -> (samples: Vec<i16>)
        ensures
            ring_contents(*old(self)).len() <= ring_capacity(*old(self)),
            samples@ == ring_contents(*old(self)).take(
                popped(ring_contents(*old(self)), count as int),
            ),
            ring_contents(*final(self)) == ring_contents(*old(self)).skip(
                popped(ring_contents(*old(self)), count as int),
            ),
            ring_capacity(*final(self)) == ring_capacity(*old(self)),
    {
        self.rb.pop_iter().take(count).collect()
    }

    /// Remove and return exactly `count` samples, oldest first, or report
    /// failure (leaving the queue untouched) when fewer than `count` are
    /// available.
    pub fn pop_exact(&mut self, count: usize) -> (r: Option<Vec<i16>>)
        ensures
            count <= ring_contents(*old(self)).len() <==> r is Some,
            r matches Some(samples) ==> {
                &&& samples@ == ring_contents(*old(self)).take(count as int)
                &&& ring_contents(*final(self)) == ring_contents(*old(self)).skip(count as int)
            },
            r is None ==> *final(self) == *old(self),
            ring_capacity(*final(self)) == ring_capacity(*old(self)),
    {
        if count <= self.len() {
            Some(self.pop(count))
        } else {
            None
        }
    }
}

/// Round-trip law: a batch pushed onto an empty ring, then popped back with
/// the same count, comes back as the identical sample sequence, for any batch
/// no longer than the capacity.
pub proof fn lemma_push_pop_round_trip(capacity: nat, batch: Seq<i16>)
    requires
        batch.len() <= capacity,
    ensures
        fits(Seq::<i16>::empty(), capacity, batch) == batch.len(),
        (Seq::<i16>::empty() + batch.take(batch.len() as int)).take(batch.len() as int) == batch,
        (Seq::<i16>::empty() + batch.take(batch.len() as int)).skip(batch.len() as int)
            == Seq::<i16>::empty(),
{
    assert(Seq::<i16>::empty() + batch.take(batch.len() as int) =~= batch);
    assert(batch.take(batch.len() as int) =~= batch);
    assert(batch.skip(batch.len() as int) =~= Seq::<i16>::empty());
}

/// Overflow law: pushing a batch larger than the remaining free space keeps
/// exactly the prefix that fits, in order, and drops only the overflow tail.
pub proof fn lemma_push_drops_only_tail(contents: Seq<i16>, capacity: nat, batch: Seq<i16>)
    requires
        contents.len() <= capacity,
        batch.len() > capacity - contents.len(),
    ensures
        fits(contents, capacity, batch) == capacity - contents.len(),
        (contents + batch.take(capacity - contents.len())).len() == capacity,
        forall|i: int|
            0 <= i < contents.len() ==> #[trigger] (contents + batch.take(
                capacity - contents.len(),
            ))[i] == contents[i],
        forall|i: int|
            contents.len() <= i < capacity ==> #[trigger] (contents + batch.take(
                capacity - contents.len(),
            ))[i] == batch[i - contents.len()],
{
}

} // verus!
