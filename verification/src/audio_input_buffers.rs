//! AudioInputBuffers manages ring buffers for microphone and system audio input.
//! They are used inside of the callback to store incoming audio samples.

use crate::ring::{
    accepted, consumer_capacity, consumer_stream, delivered, producer_capacity, producer_stream,
    ring_buffer, room, RingConsumer, RingProducer,
};
use vstd::prelude::*;

verus! {

/// The producers and consumers of both ring buffers.
pub struct AudioInputBuffers {
    pub mic_producer: RingProducer,
    pub sys_producer: RingProducer,
    pub mic_consumer: RingConsumer,
    pub sys_consumer: RingConsumer,
}

impl AudioInputBuffers {
    /// Whether the four ends are those of two buffers of this size that nothing has
    /// gone through yet.
    pub open spec fn fresh(self, buffer_size: nat) -> bool {
        &&& producer_capacity(self.mic_producer) == buffer_size
        &&& producer_capacity(self.sys_producer) == buffer_size
        &&& consumer_capacity(self.mic_consumer) == buffer_size
        &&& consumer_capacity(self.sys_consumer) == buffer_size
        &&& room(self.mic_producer) == buffer_size
        &&& room(self.sys_producer) == buffer_size
        &&& accepted(self.mic_producer).len() == 0
        &&& accepted(self.sys_producer).len() == 0
        &&& delivered(self.mic_consumer).len() == 0
        &&& delivered(self.sys_consumer).len() == 0
        &&& consumer_stream(self.mic_consumer) == producer_stream(self.mic_producer)
        &&& consumer_stream(self.sys_consumer) == producer_stream(self.sys_producer)
    }

    /// Constructor that creates ring buffers of the specified size
    /// and splits them into producers and consumers.
    pub fn new(buffer_size: usize) -> (buffers: Self)
        requires
            0 < buffer_size,
            4 * buffer_size <= isize::MAX,
        ensures
            buffers.fresh(buffer_size as nat),
    {
        let (mic_producer, mic_consumer) = ring_buffer(buffer_size);
        let (sys_producer, sys_consumer) = ring_buffer(buffer_size);
        AudioInputBuffers { mic_producer, sys_producer, mic_consumer, sys_consumer }
    }

    /// This takes ownership of self and yields the producers and consumers
    /// as tuples: first (mic_producer, sys_producer), then
    /// (mic_consumer, sys_consumer). This is useful for moving the producers into
    /// the audio callback and the consumers into the main processing loop.
    pub fn into_buffer_splits(self) -> (splits: (
        (RingProducer, RingProducer),
        (RingConsumer, RingConsumer),
    ))
        ensures
            splits.0 == (self.mic_producer, self.sys_producer),
            splits.1 == (self.mic_consumer, self.sys_consumer),
    {
        ((self.mic_producer, self.sys_producer), (self.mic_consumer, self.sys_consumer))
    }
}

} // verus!
