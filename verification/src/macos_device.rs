//! Capture through one aggregate device that carries the microphone and a tap of
//! the system audio.

use crate::audio_input_buffers::AudioInputBuffers;
use crate::ring::{
    accepted, producer_capacity, producer_stream, room, smaller, RingConsumer, RingProducer,
};
use crate::transcript::AudioSource;
use vstd::prelude::*;
use vstd::string::*;

verus! {

/// Samples that each ring buffer of a capture holds.
pub const CAPTURE_BUFFER_SIZE: usize = 8192;

/// The source that a buffer of the aggregate device carries.
pub open spec fn buffer_source(buffer_idx: usize) -> Option<AudioSource> {
    if buffer_idx == 0 {
        Some(AudioSource::Mic)
    } else if buffer_idx == 1 {
        Some(AudioSource::Sys)
    } else {
        None
    }
}

/// What the device callback works on: the producers of both ring buffers.
pub struct IoProcContext {
    pub mic_producer: RingProducer,
    pub sys_producer: RingProducer,
}

impl IoProcContext {
    /// Stores the samples of one buffer of the device: buffer 0 is the microphone,
    /// buffer 1 is system audio, others are ignored. Returns how many samples were
    /// stored; those that do not fit are dropped.
    pub fn on_buffer(&mut self, buffer_idx: usize, samples: &[u32]) -> (stored: usize)
        ensures
            stored == match buffer_source(buffer_idx) {
                Some(AudioSource::Mic) => smaller(room(old(self).mic_producer), samples@.len()),
                Some(AudioSource::Sys) => smaller(room(old(self).sys_producer), samples@.len()),
                None => 0,
            },
            buffer_source(buffer_idx) == Some(AudioSource::Mic) && stored < samples@.len()
                ==> accepted(old(self).mic_producer).len() + stored >= producer_capacity(
                old(self).mic_producer,
            ),
            buffer_source(buffer_idx) == Some(AudioSource::Sys) && stored < samples@.len()
                ==> accepted(old(self).sys_producer).len() + stored >= producer_capacity(
                old(self).sys_producer,
            ),
            accepted(final(self).mic_producer) == if buffer_source(buffer_idx) == Some(
                AudioSource::Mic,
            ) {
                accepted(old(self).mic_producer) + samples@.take(stored as int)
            } else {
                accepted(old(self).mic_producer)
            },
            accepted(final(self).sys_producer) == if buffer_source(buffer_idx) == Some(
                AudioSource::Sys,
            ) {
                accepted(old(self).sys_producer) + samples@.take(stored as int)
            } else {
                accepted(old(self).sys_producer)
            },
            buffer_source(buffer_idx) != Some(AudioSource::Mic) ==> final(self).mic_producer == old(
                self,
            ).mic_producer,
            buffer_source(buffer_idx) != Some(AudioSource::Sys) ==> final(self).sys_producer == old(
                self,
            ).sys_producer,
            producer_stream(final(self).mic_producer) == producer_stream(old(self).mic_producer),
            producer_stream(final(self).sys_producer) == producer_stream(old(self).sys_producer),
            buffer_source(buffer_idx) == Some(AudioSource::Mic) ==> accepted(
                final(self).mic_producer,
            ).is_prefix_of(producer_stream(final(self).mic_producer)),
            buffer_source(buffer_idx) == Some(AudioSource::Sys) ==> accepted(
                final(self).sys_producer,
            ).is_prefix_of(producer_stream(final(self).sys_producer)),
            producer_capacity(final(self).mic_producer) == producer_capacity(
                old(self).mic_producer,
            ),
            producer_capacity(final(self).sys_producer) == producer_capacity(
                old(self).sys_producer,
            ),
    {
        if buffer_idx == 0 {
            self.mic_producer.push(samples)
        } else if buffer_idx == 1 {
            self.sys_producer.push(samples)
        } else {
            0
        }
    }
}

/// The capture state of the aggregate device.
#[derive(Debug)]
pub struct OSXInputDevice {
    /// Sample rate of the device
    pub nominal_sample_rate: u32,
    /// Whether capturing is active
    pub is_capturing: bool,
}

impl OSXInputDevice {
    /// A device that is not capturing, at the rate of its tap.
    pub fn new(nominal_sample_rate: u32) -> (device: Self)
        ensures
            device.nominal_sample_rate == nominal_sample_rate,
            !device.is_capturing,
    {
        OSXInputDevice { nominal_sample_rate, is_capturing: false }
    }

    /// Prepares a capture: the producers for the device callback and the consumers
    /// for the reader, or an error if capture is running. Capture runs once
    /// [`capture_started`](OSXInputDevice::capture_started) is called.
    pub fn start_capture(&self) -> (buffers: Result<
        (IoProcContext, (RingConsumer, RingConsumer)),
        String,
    >)
        ensures
            if self.is_capturing {
                buffers matches Err(message) && message@ == "Already capturing"@
            } else {
                &&& buffers matches Ok((context, (mic_consumer, sys_consumer)))
                &&& (AudioInputBuffers {
                    mic_producer: context.mic_producer,
                    sys_producer: context.sys_producer,
                    mic_consumer,
                    sys_consumer,
                }).fresh(CAPTURE_BUFFER_SIZE as nat)
            },
    {
        if self.is_capturing {
            return Err(String::from_str("Already capturing"));
        }
        let buffers = AudioInputBuffers::new(CAPTURE_BUFFER_SIZE);
        let ((mic_producer, sys_producer), consumers) = buffers.into_buffer_splits();
        Ok((IoProcContext { mic_producer, sys_producer }, consumers))
    }

    /// Records that the device was started.
    pub fn capture_started(&mut self)
        ensures
            final(self).is_capturing,
            final(self).nominal_sample_rate == old(self).nominal_sample_rate,
    {
        self.is_capturing = true;
    }

    /// Ends a capture. The device and the callback's context are to be dropped, in
    /// this order, when this succeeds; it fails if capture is not running.
    pub fn stop_capture(&mut self) -> (stopped: Result<(), String>)
        ensures
            if old(self).is_capturing {
                stopped is Ok
            } else {
                stopped matches Err(message) && message@ == "Not currently capturing"@
            },
            !final(self).is_capturing,
            final(self).nominal_sample_rate == old(self).nominal_sample_rate,
    {
        if !self.is_capturing {
            return Err(String::from_str("Not currently capturing"));
        }
        self.is_capturing = false;
        Ok(())
    }

    /// Whether capture is running.
    pub fn _is_capturing(&self) -> (running: bool)
        ensures
            running == self.is_capturing,
    {
        self.is_capturing
    }
}

} // verus!
