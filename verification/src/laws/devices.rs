//! What is done with devices, their buffers and their notifications.

use crate::audio::mic_capture::maybe_rebuild;
use crate::audio::resampler::snap_to_standard_rate;
use crate::audio_input_buffers::AudioInputBuffers;
use crate::coreaudio_listener::{
    device_changed_listener, get_property_address, property_change, rates_needed, AudioPropertyChange,
    CoreAudioListener, DeviceInfo, PropertyAddress, RatesNeeded, Registration,
};
use crate::laws::tick::{closest, gap};
use crate::macos_device::{IoProcContext, OSXInputDevice};
use crate::ring::{
    accepted, consumer_capacity, consumer_stream, delivered, producer_capacity, producer_stream,
    ring_buffer, room, waiting, RingConsumer, RingProducer,
};
use crate::sys_audio_tap::{tap_action, TapAction, TapBuffer};
use vstd::prelude::*;
use vstd::string::*;

verus! {

/// A count is mapped to one of the nine standard rates, and to none that another is
/// closer than; of two that are equally close, to the lower one.
pub proof fn law_snap_finds_the_closest_rate(observed: u32, rate: u32)
    requires
        call_ensures(snap_to_standard_rate, (observed,), rate),
    ensures
        closest(rate, observed as int),
        forall|other: u32| #[trigger]
            closest(other, observed as int) ==> rate <= other,
{
    let rates = crate::audio::resampler::standard_rates();
    assert(rates[0] == 8000 && rates[1] == 11025 && rates[2] == 16000 && rates[3] == 22050
        && rates[4] == 32000 && rates[5] == 44100 && rates[6] == 48000 && rates[7] == 88200
        && rates[8] == 96000);
    assert(rates.contains(8000) && rates.contains(11025) && rates.contains(16000)
        && rates.contains(22050) && rates.contains(32000) && rates.contains(44100)
        && rates.contains(48000) && rates.contains(88200) && rates.contains(96000));
    assert forall|other: u32| #[trigger] closest(other, observed as int) implies rate <= other by {
        assert(rates.contains(other));
        assert(gap(other as int, observed as int) <= gap(rate as int, observed as int));
    }
}

/// A higher count is never mapped to a lower rate.
pub proof fn law_snap_is_monotone(low: u32, high: u32, low_rate: u32, high_rate: u32)
    requires
        low <= high,
        call_ensures(snap_to_standard_rate, (low,), low_rate),
        call_ensures(snap_to_standard_rate, (high,), high_rate),
    ensures
        low_rate <= high_rate,
{
    law_snap_finds_the_closest_rate(low, low_rate);
    law_snap_finds_the_closest_rate(high, high_rate);
    if high_rate < low_rate {
        assert(gap(low_rate as int, low as int) <= gap(high_rate as int, low as int));
        assert(gap(high_rate as int, high as int) <= gap(low_rate as int, high as int));
        assert(!closest(high_rate, low as int));
    }
}

/// Only the last buffer of a callback is stored, and of it one sample for each
/// complete frame: as they are for one channel, averaged for more.
pub proof fn law_tap_stores_mono(index: usize, count: usize, buffer: TapBuffer, action: TapAction)
    requires
        index < count,
        call_ensures(tap_action, (index, count, buffer), action),
    ensures
        index + 1 < count ==> action is Skip,
        buffer.is_null || buffer.number_channels == 0 ==> action is Skip,
        action is Skip && index + 1 == count && !buffer.is_null ==> buffer.data_bytes_size < 4
            * buffer.number_channels || buffer.number_channels == 0,
        match action {
            TapAction::Skip => true,
            TapAction::Store { samples } => buffer.number_channels == 1 && samples > 0 && 4 * samples
                <= buffer.data_bytes_size < 4 * (samples + 1),
            TapAction::Mix { frames, channels } => {
                &&& buffer.number_channels == channels
                &&& channels >= 2
                &&& frames > 0
                &&& 4 * (frames * channels) <= buffer.data_bytes_size < 4 * ((frames + 1)
                    * channels)
            },
        },
{
    let total = buffer.data_bytes_size as int / 4;
    if let TapAction::Mix { frames, channels } = action {
        let (f, c) = (frames as int, channels as int);
        assert(f == total / c);
        assert(f * c <= total < (f + 1) * c) by (nonlinear_arith)
            requires
                f == total / c,
                c > 0,
        ;
        assert(f > 0) by (nonlinear_arith)
            requires
                f == total / c,
                total >= c,
                c > 0,
        ;
    }
}

/// A stream is rebuilt exactly if the device reports another rate, and then at that
/// rate.
pub proof fn law_when_a_stream_is_rebuilt(current: u32, polled: Option<u32>, rate: Option<u32>)
    requires
        call_ensures(maybe_rebuild, (current, polled), rate),
    ensures
        rate is Some <==> polled is Some && polled->0 != current,
        rate matches Some(new) ==> polled == Some(new),
{
}

/// Whether a registration is for a property of an object in the global scope, main
/// element.
pub open spec fn listens_to(entry: Registration, object: u32, selector: u32) -> bool {
    &&& entry.object == object
    &&& entry.address.selector == selector
    &&& entry.address.scope == 0x676c_6f62
    &&& entry.address.element == 0
}

/// Whether a list is that of the five listeners for an output device: actual rate,
/// nominal rate and liveness of the device, default input and default output of the
/// system.
pub open spec fn listens_to_output(list: Seq<Registration>, output: u32) -> bool {
    &&& list.len() == 5
    &&& listens_to(list[0], output, 0x6173_7274)
    &&& listens_to(list[1], output, 0x6e73_7274)
    &&& listens_to(list[2], output, 0x6c69_766e)
    &&& listens_to(list[3], 1, 0x6449_6e20)
    &&& listens_to(list[4], 1, 0x644f_7574)
}

/// Starting installs the five listeners unless it already listens or has no output
/// device; it listens from then on.
pub proof fn law_start_installs(listener: &mut CoreAudioListener, install: Vec<Registration>)
    requires
        call_ensures(CoreAudioListener::start, (listener,), install),
    ensures
        final(listener).is_listening,
        if old(listener).is_listening || old(listener).default_output_device == 0 {
            install@.len() == 0
        } else {
            listens_to_output(install@, old(listener).default_output_device)
        },
        final(listener).has_client_data <==> old(listener).has_client_data || install@.len() > 0,
        final(listener).default_output_device == old(listener).default_output_device,
        final(listener).default_input_device == old(listener).default_input_device,
{
}

/// A listener that was stopped, started and stopped again removes what it installed.
pub proof fn law_start_and_stop(
    first: &mut CoreAudioListener,
    second: &mut CoreAudioListener,
    install: Vec<Registration>,
    remove: Vec<Registration>,
)
    requires
        !old(first).is_listening,
        !old(first).has_client_data,
        call_ensures(CoreAudioListener::start, (first,), install),
        *old(second) == *final(first),
        call_ensures(CoreAudioListener::stop, (second,), remove),
    ensures
        remove@ == install@,
        !final(second).is_listening,
        !final(second).has_client_data,
{
}

/// Stopping removes nothing unless it listens, and it listens no longer.
pub proof fn law_stop_removes(listener: &mut CoreAudioListener, remove: Vec<Registration>)
    requires
        call_ensures(CoreAudioListener::stop, (listener,), remove),
    ensures
        !final(listener).is_listening,
        if old(listener).is_listening && old(listener).has_client_data {
            listens_to_output(remove@, old(listener).default_output_device)
        } else {
            remove@.len() == 0
        },
        final(listener).has_client_data <==> old(listener).has_client_data && !old(
            listener,
        ).is_listening,
        final(listener).default_output_device == old(listener).default_output_device,
        final(listener).default_input_device == old(listener).default_input_device,
{
}

/// Rebuilding removes the listeners of the old output device and installs those of
/// the new one.
pub proof fn law_rebuild_moves_the_listeners(
    listener: &mut CoreAudioListener,
    output: u32,
    input: u32,
    change: (Vec<Registration>, Vec<Registration>),
)
    requires
        call_ensures(CoreAudioListener::rebuild, (listener, output, input), change),
    ensures
        final(listener).is_listening,
        final(listener).default_output_device == output,
        final(listener).default_input_device == input,
        if old(listener).is_listening && old(listener).has_client_data {
            listens_to_output(change.0@, old(listener).default_output_device)
        } else {
            change.0@.len() == 0
        },
        if output == 0 {
            change.1@.len() == 0
        } else {
            listens_to_output(change.1@, output)
        },
        output != 0 ==> final(listener).has_client_data,
{
}

/// A new listener listens to nothing.
pub proof fn law_new_listener(output: u32, input: u32, listener: CoreAudioListener)
    requires
        call_ensures(CoreAudioListener::new, (output, input), listener),
    ensures
        listener.default_output_device == output,
        listener.default_input_device == input,
        !listener.is_listening,
        !listener.has_client_data,
{
}

/// A changed rate is reported with the output's rate, a changed default device with
/// its number and rate, a change of liveness as such, anything else as unknown.
pub proof fn law_what_a_change_means(
    selector: u32,
    output: DeviceInfo,
    input: DeviceInfo,
    change: AudioPropertyChange,
)
    requires
        call_ensures(property_change, (selector, output, input), change),
    ensures
        selector == 0x6173_7274 || selector == 0x6e73_7274 ==> change == (
        AudioPropertyChange::ActualSampleRate { hz: output.hz }),
        selector == 0x6c69_766e ==> change is DeviceIsAlive,
        selector == 0x6449_6e20 ==> change == (AudioPropertyChange::HardwareDefaultInputDevice {
            id: input.id,
            hz: input.hz,
        }),
        selector == 0x644f_7574 ==> change == (AudioPropertyChange::HardwareDefaultOutputDevice {
            id: output.id,
            hz: output.hz,
        }),
        change is Unknown <==> selector != 0x6173_7274 && selector != 0x6e73_7274 && selector
            != 0x6c69_766e && selector != 0x6449_6e20 && selector != 0x644f_7574,
{
}

/// Every changed property of a notification leads to its own event, in order.
pub proof fn law_every_change_is_reported(
    addresses: Vec<PropertyAddress>,
    output: DeviceInfo,
    input: DeviceInfo,
    changes: Vec<AudioPropertyChange>,
    i: int,
    change: AudioPropertyChange,
)
    requires
        call_ensures(device_changed_listener, (&addresses, output, input), changes),
        0 <= i < addresses@.len(),
        call_ensures(property_change, (addresses@[i].selector, output, input), change),
    ensures
        changes@.len() == addresses@.len(),
        changes@[i] == change,
{
}

/// A rate is read exactly if some changed property is reported with it.
pub proof fn law_which_rates_are_read(addresses: Vec<PropertyAddress>, needed: RatesNeeded, i: int)
    requires
        call_ensures(rates_needed, (&addresses,), needed),
        0 <= i < addresses@.len(),
    ensures
        addresses@[i].selector == 0x6173_7274 || addresses@[i].selector == 0x6e73_7274
            || addresses@[i].selector == 0x644f_7574 ==> needed.output,
        addresses@[i].selector == 0x6449_6e20 ==> needed.input,
        needed.output ==> exists|j: int|
            0 <= j < addresses@.len() && ((#[trigger] addresses@[j]).selector == 0x6173_7274
                || addresses@[j].selector == 0x6e73_7274 || addresses@[j].selector == 0x644f_7574),
        needed.input ==> exists|j: int|
            0 <= j < addresses@.len() && (#[trigger] addresses@[j]).selector == 0x6449_6e20,
{
}

/// Buffer 0 of the aggregate device goes to the microphone's ring buffer, buffer 1
/// to that of system audio, as much as there is room for; the other ring buffer is
/// not touched, and further buffers go nowhere.
pub proof fn law_buffers_go_to_their_source(
    context: &mut IoProcContext,
    buffer_idx: usize,
    samples: &[u32],
    stored: usize,
)
    requires
        call_ensures(IoProcContext::on_buffer, (context, buffer_idx, samples), stored),
    ensures
        buffer_idx == 0 ==> {
            &&& stored == if room(old(context).mic_producer) < samples@.len() {
                room(old(context).mic_producer)
            } else {
                samples@.len()
            }
            &&& accepted(final(context).mic_producer) == accepted(old(context).mic_producer)
                + samples@.take(stored as int)
            &&& final(context).sys_producer == old(context).sys_producer
        },
        buffer_idx == 1 ==> {
            &&& stored == if room(old(context).sys_producer) < samples@.len() {
                room(old(context).sys_producer)
            } else {
                samples@.len()
            }
            &&& accepted(final(context).sys_producer) == accepted(old(context).sys_producer)
                + samples@.take(stored as int)
            &&& final(context).mic_producer == old(context).mic_producer
        },
        buffer_idx > 1 ==> {
            &&& stored == 0
            &&& final(context).mic_producer == old(context).mic_producer
            &&& final(context).sys_producer == old(context).sys_producer
        },
        buffer_idx == 0 ==> accepted(final(context).mic_producer).is_prefix_of(
            producer_stream(old(context).mic_producer),
        ),
        buffer_idx == 1 ==> accepted(final(context).sys_producer).is_prefix_of(
            producer_stream(old(context).sys_producer),
        ),
        producer_stream(final(context).mic_producer) == producer_stream(old(context).mic_producer),
        producer_stream(final(context).sys_producer) == producer_stream(old(context).sys_producer),
        producer_capacity(final(context).mic_producer) == producer_capacity(
            old(context).mic_producer,
        ),
        producer_capacity(final(context).sys_producer) == producer_capacity(
            old(context).sys_producer,
        ),
{
}

/// Capture is prepared exactly if it is not running, with empty buffers of 8192
/// samples for both sources.
pub proof fn law_capture_is_prepared(
    device: OSXInputDevice,
    buffers: Result<(IoProcContext, (RingConsumer, RingConsumer)), String>,
)
    requires
        call_ensures(OSXInputDevice::start_capture, (&device,), buffers),
    ensures
        buffers is Ok <==> !device.is_capturing,
        match buffers {
            Ok((context, (mic, sys))) => {
                &&& producer_capacity(context.mic_producer) == 8192
                &&& producer_capacity(context.sys_producer) == 8192
                &&& accepted(context.mic_producer).len() == 0
                &&& accepted(context.sys_producer).len() == 0
                &&& delivered(mic).len() == 0
                &&& delivered(sys).len() == 0
                &&& consumer_stream(mic) == producer_stream(context.mic_producer)
                &&& consumer_stream(sys) == producer_stream(context.sys_producer)
            },
            Err(message) => message@ == "Already capturing"@,
        },
{
}

/// Capture runs from its start to its stop; it cannot be stopped when it does not
/// run.
pub proof fn law_capture_runs(
    started: &mut OSXInputDevice,
    stopped: &mut OSXInputDevice,
    result: Result<(), String>,
    running: bool,
)
    requires
        call_ensures(OSXInputDevice::capture_started, (started,), ()),
        call_ensures(OSXInputDevice::stop_capture, (stopped,), result),
        call_ensures(OSXInputDevice::_is_capturing, (old(started),), running),
    ensures
        final(started).is_capturing,
        !final(stopped).is_capturing,
        result is Ok <==> old(stopped).is_capturing,
        result matches Err(message) ==> message@ == "Not currently capturing"@,
        running == old(started).is_capturing,
        final(started).nominal_sample_rate == old(started).nominal_sample_rate,
        final(stopped).nominal_sample_rate == old(stopped).nominal_sample_rate,
{
}

/// A new device does not capture.
pub proof fn law_new_device(rate: u32, device: OSXInputDevice)
    requires
        call_ensures(OSXInputDevice::new, (rate,), device),
    ensures
        device.nominal_sample_rate == rate,
        !device.is_capturing,
{
}

/// Fresh buffers are empty, of the size asked for, and connected source by source;
/// taking them apart keeps each in its place.
pub proof fn law_fresh_buffers(
    size: usize,
    buffers: AudioInputBuffers,
    splits: ((RingProducer, RingProducer), (RingConsumer, RingConsumer)),
)
    requires
        call_ensures(AudioInputBuffers::new, (size,), buffers),
        call_ensures(AudioInputBuffers::into_buffer_splits, (buffers,), splits),
    ensures
        ({
            let ((mic_in, sys_in), (mic_out, sys_out)) = splits;
            &&& producer_capacity(mic_in) == size
            &&& producer_capacity(sys_in) == size
            &&& consumer_capacity(mic_out) == size
            &&& consumer_capacity(sys_out) == size
            &&& room(mic_in) == size
            &&& room(sys_in) == size
            &&& accepted(mic_in).len() == 0
            &&& accepted(sys_in).len() == 0
            &&& delivered(mic_out).len() == 0
            &&& delivered(sys_out).len() == 0
            &&& consumer_stream(mic_out) == producer_stream(mic_in)
            &&& consumer_stream(sys_out) == producer_stream(sys_in)
        }),
        splits == (
            (buffers.mic_producer, buffers.sys_producer),
            (buffers.mic_consumer, buffers.sys_consumer),
        ),
{
}

/// A write puts in as much of the front of the samples as there is room for, a read
/// takes out the oldest samples, as many as wait or were asked for.
pub proof fn law_ring_ends(
    producer: &mut RingProducer,
    samples: &[u32],
    n: usize,
    consumer: &mut RingConsumer,
    limit: usize,
    taken: Vec<u32>,
)
    requires
        call_ensures(RingProducer::push, (producer, samples), n),
        call_ensures(RingConsumer::drain, (consumer, limit), taken),
    ensures
        n == if room(*old(producer)) < samples@.len() {
            room(*old(producer))
        } else {
            samples@.len()
        },
        accepted(*final(producer)) == accepted(*old(producer)) + samples@.take(n as int),
        taken@.len() == if waiting(*old(consumer)) < limit {
            waiting(*old(consumer))
        } else {
            limit as nat
        },
        delivered(*final(consumer)) == delivered(*old(consumer)) + taken@,
        delivered(*final(consumer)).is_prefix_of(consumer_stream(*old(consumer))),
        producer_stream(*final(producer)) == producer_stream(*old(producer)),
        producer_capacity(*final(producer)) == producer_capacity(*old(producer)),
        consumer_stream(*final(consumer)) == consumer_stream(*old(consumer)),
        consumer_capacity(*final(consumer)) == consumer_capacity(*old(consumer)),
{
}

/// The ends of a fresh ring buffer belong together; nothing has gone through.
pub proof fn law_fresh_ring(capacity: usize, ends: (RingProducer, RingConsumer))
    requires
        call_ensures(ring_buffer, (capacity,), ends),
    ensures
        producer_capacity(ends.0) == capacity,
        consumer_capacity(ends.1) == capacity,
        room(ends.0) == capacity,
        accepted(ends.0).len() == 0,
        delivered(ends.1).len() == 0,
        consumer_stream(ends.1) == producer_stream(ends.0),
{
}

/// A property address has the three parts that it is made of.
pub proof fn law_property_address(
    selector: u32,
    scope: u32,
    element: u32,
    address: PropertyAddress,
)
    requires
        call_ensures(get_property_address, (selector, scope, element), address),
    ensures
        address.selector == selector,
        address.scope == scope,
        address.element == element,
{
}

} // verus!
