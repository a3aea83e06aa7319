//! The sample channel between the audio callback and its reader: a bounded
//! single-producer, single-consumer ring of samples.
//!
//! The ring itself is `rtrb`'s. Its two ends are used from different
//! threads, so nothing is said here about what the ring holds at a given
//! moment. What is said is what each end has done: the samples that a
//! producer has committed, and the samples that a consumer has taken out.

use vstd::prelude::*;
use rtrb::{Consumer, Producer, RingBuffer};

verus! {

/// `rtrb::Producer`, the writing end of a ring, as an opaque value.
#[verifier::external_type_specification]
#[verifier::external_body]
#[verifier::reject_recursive_types(T)]
pub struct ExProducer<T>(Producer<T>);

/// `rtrb::Consumer`, the reading end of a ring, as an opaque value.
#[verifier::external_type_specification]
#[verifier::external_body]
#[verifier::reject_recursive_types(T)]
pub struct ExConsumer<T>(Consumer<T>);

/// The most slots a ring may be made with: four bytes each, the whole not
/// larger than the largest allocation.
pub const MAX_RING_SLOTS: usize = 0x1FFF_FFFF;

/// The samples that have entered the ring through this producer since it
/// was made, oldest first. A producer is never copied, and only calls on it
/// commit anything: what it has committed is a matter of the calls made on
/// it, whatever the other end does.
pub uninterp spec fn committed(producer: Producer<u32>) -> Seq<u32>;

/// The number of slots that the producer's ring was made with.
pub uninterp spec fn slots_of(producer: Producer<u32>) -> nat;

/// The samples that have left the ring through this consumer since it was
/// made, oldest first: again a matter of the calls made on it alone.
pub uninterp spec fn delivered(consumer: Consumer<u32>) -> Seq<u32>;

/// `rtrb::RingBuffer::new`: a ring with `capacity` slots and its two ends,
/// through which nothing has passed yet.
#[verifier::external_body]
fn ring_new(capacity: usize) -> (ends: (Producer<u32>, Consumer<u32>))
    requires
        capacity <= MAX_RING_SLOTS,
    ensures
        committed(ends.0) == Seq::<u32>::empty(),
        slots_of(ends.0) == capacity,
        delivered(ends.1) == Seq::<u32>::empty(),
{
    RingBuffer::new(capacity)
}

/// `rtrb::Producer::push_entire_slice`: copies all of `samples` into the
/// ring and commits them, or, where the ring has fewer free slots than
/// that, leaves the ring as it is. A slice longer than the ring is never
/// taken. The free slots are the ring's slots less the samples in it, and
/// there are never more samples in it than were committed: so a slice that
/// fits beside everything committed so far is always taken, whatever the
/// consumer has read.
#[verifier::external_body]
fn ring_push_entire(producer: &mut Producer<u32>, samples: &[u32]) -> (accepted: bool)
    ensures
        committed(*final(producer)) == if accepted {
            committed(*old(producer)) + samples@
        } else {
            committed(*old(producer))
        },
        slots_of(*final(producer)) == slots_of(*old(producer)),
        samples@.len() > slots_of(*old(producer)) ==> !accepted,
        committed(*old(producer)).len() + samples@.len() <= slots_of(*old(producer)) ==> accepted,
{
    producer.push_entire_slice(samples).is_ok()
}

/// `rtrb::Consumer::read_chunk` over as many slots as `Consumer::slots`
/// reports: takes out what is there to read, in order, and frees the slots.
#[verifier::external_body]
fn ring_read_available(consumer: &mut Consumer<u32>) -> (samples: Vec<u32>)
    ensures
        delivered(*final(consumer)) == delivered(*old(consumer)) + samples@,
{
    let mut samples = Vec::new();
    if let Ok(chunk) = consumer.read_chunk(consumer.slots()) {
        let (first, second) = chunk.as_slices();
        samples.extend_from_slice(first);
        samples.extend_from_slice(second);
        chunk.commit_all();
    }
    samples
}

/// The writing end of the channel, as the audio callback holds it. A chunk
/// goes in whole or not at all; chunks that did not fit are counted.
pub struct SampleWriter {
    producer: Producer<u32>,
    dropped_chunks: u64,
}

/// The reading end of the channel.
pub struct SampleReader {
    consumer: Consumer<u32>,
}

impl SampleWriter {
    /// The samples written so far, oldest first.
    pub closed spec fn written(&self) -> Seq<u32> {
        committed(self.producer)
    }

    /// The number of slots of the ring.
    pub closed spec fn capacity(&self) -> nat {
        slots_of(self.producer)
    }

    /// How many chunks were dropped for want of room.
    pub closed spec fn dropped(&self) -> nat {
        self.dropped_chunks as nat
    }

    /// Writes a chunk without waiting. Where the ring lacks room for all of
    /// it, the whole chunk is dropped and counted.
    pub fn write_chunk(&mut self, samples: &[u32]) -> (accepted: bool)
        ensures
            final(self).capacity() == old(self).capacity(),
            accepted ==> final(self).written() == old(self).written() + samples@
                && final(self).dropped() == old(self).dropped(),
            !accepted ==> final(self).written() == old(self).written() && final(self).dropped()
                == if old(self).dropped() < u64::MAX {
                old(self).dropped() + 1
            } else {
                old(self).dropped()
            },
            samples@.len() > old(self).capacity() ==> !accepted,
            old(self).written().len() + samples@.len() <= old(self).capacity() ==> accepted,
    {
        let accepted = ring_push_entire(&mut self.producer, samples);
        if !accepted && self.dropped_chunks < u64::MAX {
            self.dropped_chunks = self.dropped_chunks + 1;
        }
        accepted
    }

    /// How many chunks were dropped for want of room.
    pub fn dropped_chunks(&self) -> (n: u64)
        ensures
            n == self.dropped(),
    {
        self.dropped_chunks
    }
}

impl SampleReader {
    /// The samples taken out so far, oldest first.
    pub closed spec fn taken(&self) -> Seq<u32> {
        delivered(self.consumer)
    }

    /// Takes out what the ring holds, in order, reading until a read finds
    /// it empty. What a writer on another thread commits meanwhile may or
    /// may not be part of it.
    pub fn drain(&mut self) -> (samples: Vec<u32>)
        ensures
            final(self).taken() == old(self).taken() + samples@,
    {
        let mut samples: Vec<u32> = Vec::new();
        let mut rounds: u64 = 0;
        while rounds < u64::MAX
            invariant
                self.taken() == old(self).taken() + samples@,
            decreases u64::MAX - rounds,
        {
            let chunk = ring_read_available(&mut self.consumer);
            if !gather_chunk(&mut samples, chunk) {
                break;
            }
            rounds += 1;
        }
        samples
    }

    /// Discards what the ring holds.
    pub fn clear(&mut self) -> (discarded: usize)
        ensures
            final(self).taken().len() >= old(self).taken().len(),
            final(self).taken().take(old(self).taken().len() as int) == old(self).taken(),
            discarded == final(self).taken().len() - old(self).taken().len(),
    {
        let samples = self.drain();
        samples.len()
    }
}

/// Takes what one read of the ring gave into the samples gathered so far,
/// behind them, and says whether to read on: reading ends with the first
/// read that gives nothing.
pub fn gather_chunk(gathered: &mut Vec<u32>, chunk: Vec<u32>) -> (read_on: bool)
    ensures
        final(gathered)@ == old(gathered)@ + chunk@,
        read_on == (chunk@.len() > 0),
{
    let mut chunk = chunk;
    if chunk.len() == 0 {
        return false;
    }
    gathered.append(&mut chunk);
    true
}

/// A channel with `capacity` slots, or none where that is more than a ring
/// can have.
pub fn sample_channel(capacity: usize) -> (ends: Option<(SampleWriter, SampleReader)>)
    ensures
        ends is Some <==> capacity <= MAX_RING_SLOTS,
        ends matches Some(pair) ==> pair.0.written() == Seq::<u32>::empty() && pair.0.capacity()
            == capacity && pair.0.dropped() == 0 && pair.1.taken() == Seq::<u32>::empty(),
{
    if capacity > MAX_RING_SLOTS {
        return None;
    }
    let (producer, consumer) = ring_new(capacity);
    Some((SampleWriter { producer, dropped_chunks: 0 }, SampleReader { consumer }))
}

/// The slots needed to hold `max_duration_seconds` of audio at
/// `sample_rate`.
pub fn slots_for(max_duration_seconds: u32, sample_rate: u32) -> (slots: u64)
    ensures
        slots == max_duration_seconds * sample_rate,
{
    assert(max_duration_seconds * sample_rate <= u64::MAX) by (nonlinear_arith)
        requires
            max_duration_seconds <= u32::MAX,
            sample_rate <= u32::MAX,
    ;
    max_duration_seconds as u64 * sample_rate as u64
}

} // verus!
