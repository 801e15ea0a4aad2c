//! Ring buffers between the capture callbacks and the engine.
//!
//! The buffers are those of the `ringbuf` crate, lock-free queues with one
//! producer and one consumer that usually live on different threads. Each end has
//! a history: the samples that the producer has accepted and those that the
//! consumer has delivered. Both are the beginning of one stream, that of all
//! samples that ever go through the buffer. How much [`room`] a write finds and how
//! many samples are [`waiting`] for a read changes with the other thread's
//! progress; given these, what a write or a read does is fixed.

use ringbuf::traits::{Consumer, Producer, Split};
use vstd::prelude::*;

verus! {

/// A ring buffer whose ends have not been separated.
#[verifier::external_body]
pub struct RingBuffer(ringbuf::HeapRb<u32>);

/// The writing end of a ring buffer.
#[verifier::external_body]
pub struct RingProducer(ringbuf::HeapProd<u32>);

/// The reading end of a ring buffer.
#[verifier::external_body]
pub struct RingConsumer(ringbuf::HeapCons<u32>);

/// How many samples a ring buffer was made for.
pub uninterp spec fn ring_capacity(ring: RingBuffer) -> nat;

/// How many samples the buffer of a producer was made for.
pub uninterp spec fn producer_capacity(producer: RingProducer) -> nat;

/// How many samples the buffer of a consumer was made for.
pub uninterp spec fn consumer_capacity(consumer: RingConsumer) -> nat;

/// All samples that a producer has put into its buffer, in order.
pub uninterp spec fn accepted(producer: RingProducer) -> Seq<u32>;

/// All samples that a consumer has taken out of its buffer, in order.
pub uninterp spec fn delivered(consumer: RingConsumer) -> Seq<u32>;

/// All samples that go through the buffer of a producer, in order: those it has
/// put in and those it will.
pub uninterp spec fn producer_stream(producer: RingProducer) -> Seq<u32>;

/// All samples that go through the buffer of a consumer, in order: those that its
/// producer has put in and those it will.
pub uninterp spec fn consumer_stream(consumer: RingConsumer) -> Seq<u32>;

/// How many samples the buffer of a consumer holds when the consumer is next read.
pub uninterp spec fn waiting(consumer: RingConsumer) -> nat;

/// How many samples fit in the buffer of a producer when the producer is next
/// written to.
pub uninterp spec fn room(producer: RingProducer) -> nat;

/// The smaller of two numbers.
pub open spec fn smaller(a: nat, b: nat) -> nat {
    if a < b {
        a
    } else {
        b
    }
}

/// `ringbuf::HeapRb::new`: an empty buffer for `capacity` samples. It panics when
/// `capacity` is zero or the memory for it cannot be addressed.
#[verifier::external_body]
pub(crate) fn new_ring(capacity: usize) -> (ring: RingBuffer)
    requires
        0 < capacity,
        4 * capacity <= isize::MAX,
    ensures
        ring_capacity(ring) == capacity,
{
    RingBuffer(ringbuf::HeapRb::<u32>::new(capacity))
}

/// `Split::split` of `ringbuf`: the two ends of a fresh buffer, over the same
/// storage, so that one stream goes through both; nothing has gone through yet, so
/// that there is room for as much as the buffer was made for.
#[verifier::external_body]
pub(crate) fn split_ring(ring: RingBuffer) -> (ends: (RingProducer, RingConsumer))
    ensures
        producer_capacity(ends.0) == ring_capacity(ring),
        consumer_capacity(ends.1) == ring_capacity(ring),
        accepted(ends.0) == Seq::<u32>::empty(),
        delivered(ends.1) == Seq::<u32>::empty(),
        consumer_stream(ends.1) == producer_stream(ends.0),
        room(ends.0) == producer_capacity(ends.0),
{
    let (producer, consumer) = ring.0.split();
    (RingProducer(producer), RingConsumer(consumer))
}

/// `Producer::push_slice` of `ringbuf`: appends the longest part of the front of
/// `samples` that there is room for and returns its length, which is at most the
/// capacity. How much room there is depends on the consumer's progress; at least as
/// much as the capacity exceeds all that was ever put in.
#[verifier::external_body]
pub(crate) fn push_slice(producer: &mut RingProducer, samples: &[u32]) -> (n: usize)
    ensures
        n == smaller(room(*old(producer)), samples@.len()),
        n <= producer_capacity(*old(producer)),
        n < samples@.len() ==> accepted(*old(producer)).len() + n >= producer_capacity(
            *old(producer),
        ),
        accepted(*final(producer)) == accepted(*old(producer)) + samples@.take(n as int),
        accepted(*final(producer)).is_prefix_of(producer_stream(*final(producer))),
        producer_stream(*final(producer)) == producer_stream(*old(producer)),
        producer_capacity(*final(producer)) == producer_capacity(*old(producer)),
{
    producer.0.push_slice(samples)
}

/// `Consumer::pop_slice` of `ringbuf`: moves the oldest samples of the buffer to
/// the front of `samples`, all that wait or as many as fit, and returns their
/// number, which is at most the capacity. The rest of `samples` keeps its values.
/// Samples come out in the order in which they went in; how many wait depends on
/// the producer's progress.
#[verifier::external_body]
pub(crate) fn pop_slice(consumer: &mut RingConsumer, samples: &mut [u32]) -> (n: usize)
    ensures
        final(samples)@.len() == old(samples)@.len(),
        n == smaller(waiting(*old(consumer)), old(samples)@.len()),
        n <= consumer_capacity(*old(consumer)),
        final(samples)@.skip(n as int) == old(samples)@.skip(n as int),
        delivered(*final(consumer)) == delivered(*old(consumer)) + final(samples)@.take(n as int),
        delivered(*final(consumer)).is_prefix_of(consumer_stream(*final(consumer))),
        consumer_stream(*final(consumer)) == consumer_stream(*old(consumer)),
        consumer_capacity(*final(consumer)) == consumer_capacity(*old(consumer)),
{
    consumer.0.pop_slice(samples)
}

/// An empty ring buffer for `capacity` samples, as its two ends.
pub fn ring_buffer(capacity: usize) -> (ends: (RingProducer, RingConsumer))
    requires
        0 < capacity,
        4 * capacity <= isize::MAX,
    ensures
        producer_capacity(ends.0) == capacity,
        consumer_capacity(ends.1) == capacity,
        accepted(ends.0) == Seq::<u32>::empty(),
        delivered(ends.1) == Seq::<u32>::empty(),
        consumer_stream(ends.1) == producer_stream(ends.0),
        room(ends.0) == producer_capacity(ends.0),
{
    split_ring(new_ring(capacity))
}

impl RingProducer {
    /// Puts samples into the buffer, as many as there is room for; those that do
    /// not fit are dropped. Returns how many were put in.
    pub fn push(&mut self, samples: &[u32]) -> (n: usize)
        ensures
            n == smaller(room(*old(self)), samples@.len()),
            n <= producer_capacity(*old(self)),
            n < samples@.len() ==> accepted(*old(self)).len() + n >= producer_capacity(*old(self)),
            accepted(*final(self)) == accepted(*old(self)) + samples@.take(n as int),
            accepted(*final(self)).is_prefix_of(producer_stream(*final(self))),
            producer_stream(*final(self)) == producer_stream(*old(self)),
            producer_capacity(*final(self)) == producer_capacity(*old(self)),
    {
        push_slice(self, samples)
    }
}

impl RingConsumer {
    /// Takes the oldest samples out of the buffer: all that wait, or `limit` if
    /// there are more.
    pub fn drain(&mut self, limit: usize) -> (samples: Vec<u32>)
        ensures
            samples@.len() == smaller(waiting(*old(self)), limit as nat),
            samples@.len() <= consumer_capacity(*old(self)),
            delivered(*final(self)) == delivered(*old(self)) + samples@,
            delivered(*final(self)).is_prefix_of(consumer_stream(*final(self))),
            consumer_stream(*final(self)) == consumer_stream(*old(self)),
            consumer_capacity(*final(self)) == consumer_capacity(*old(self)),
    {
        let mut samples = crate::sample::silence(limit);
        let n = pop_slice(self, samples.as_mut_slice());
        samples.truncate(n);
        samples
    }
}

/// What comes out of a ring buffer is what went in, in the same order: as far as
/// both ends have come, their histories agree.
pub proof fn law_ring_keeps_order(producer: RingProducer, consumer: RingConsumer, i: int)
    requires
        consumer_stream(consumer) == producer_stream(producer),
        accepted(producer).is_prefix_of(producer_stream(producer)),
        delivered(consumer).is_prefix_of(consumer_stream(consumer)),
        0 <= i < accepted(producer).len(),
        i < delivered(consumer).len(),
    ensures
        delivered(consumer)[i] == accepted(producer)[i],
{
}

} // verus!
