//! What each step accepts.

use crate::audio::resampler::snap_to_standard_rate;
use crate::backends::deepgram::connection_request;
use crate::backends::parakeet::{flush, ParakeetChannel};
use crate::backends::whisper::{is_artifact, segment_transcripts, window_samples, WhisperChannel};
use crate::builder::{BackendSpec, SplitStreamBuilder};
use crate::coreaudio_listener::{
    device_changed_listener, property_change, rates_needed, CoreAudioListener, DeviceInfo,
    PropertyAddress,
};
use crate::demo::{_frame_size, _share_more_than_three, mute_buffer};
use crate::download_parakeet::Download;
use crate::echo_cancellation::EchoCanceler;
use crate::engine::{discard_backlog, next_step, Engine, Frames};
use crate::error::OpenError;
use crate::handle::{Controls, Panel};
use crate::laws::samples::is_number;
use crate::macos_device::{IoProcContext, OSXInputDevice};
use crate::ring::{RingConsumer, RingProducer};
use crate::sample::{quantize, quantize_frame, sample_of, samples_of};
use crate::settings::{SessionSettings, Settings, SettingsFile};
use crate::sys_audio_tap::{tap_action, TapBuffer};
use crate::transcript::AudioSource;
use crate::transcript_msg::TranscriptMessage;
use crate::websocket_client::{authorized_request, on_incoming, Incoming, Uplink, WebSocketClient};
use vstd::prelude::*;

verus! {

/// A tick can begin whatever waits in the ring buffers, unless a rate check is due.
pub proof fn law_any_captured_audio_is_taken(
    engine: &mut Engine,
    mic: &mut RingConsumer,
    sys: &mut RingConsumer,
    mic_samples: &[u32],
    sys_samples: &[u32],
)
    requires
        old(engine).wf(),
        old(engine)@.ticks < 50,
        sys_samples@.len() <= 4096,
    ensures
        call_requires(Engine::drain, (engine, mic, sys)),
        call_requires(Engine::accept_samples, (engine, mic_samples, sys_samples)),
        call_requires(discard_backlog, (mic,)),
{
}

/// A rate check is carried out whatever the microphone reports, after fifty ticks.
pub proof fn law_any_rate_is_checked(engine: &mut Engine, mic_rebuilt: Option<u32>)
    requires
        old(engine).wf(),
        old(engine)@.ticks == 50,
    ensures
        call_requires(Engine::check_rates, (engine, mic_rebuilt)),
        call_requires(Engine::keep_rates, (engine,)),
{
}

/// A chunk of any size can be asked for, and finished if it was there.
pub proof fn law_any_chunk_is_taken(
    engine: &mut Engine,
    source: AudioSource,
    required: usize,
    resampled: bool,
)
    requires
        old(engine).wf(),
        2 * required <= usize::MAX,
    ensures
        call_requires(Engine::take_input, (engine, source, required)),
        required <= match source {
            AudioSource::Mic => old(engine)@.mic_input.len(),
            AudioSource::Sys => old(engine)@.sys_input.len(),
        } ==> call_requires(Engine::finish_input, (engine, source, required, resampled)),
{
}

/// Frames of 320 samples are mixed and sent whatever they hold and however the
/// switches are set.
pub proof fn law_any_frames_are_sent(
    engine: &mut Engine,
    mic: Option<Vec<u32>>,
    sys: Option<Vec<u32>>,
    frames: Frames,
    filtered: Option<Vec<i16>>,
    controls: Controls,
)
    requires
        old(engine).wf(),
        mic matches Some(frame) ==> frame@.len() == 320,
        sys matches Some(frame) ==> frame@.len() == 320,
        frames.mic@.len() == 320,
        frames.sys@.len() == 320,
        frames.filter is Some <==> filtered is Some,
        filtered matches Some(pcm) ==> pcm@.len() == 320,
    ensures
        call_requires(Engine::mix, (engine, mic, sys, controls)),
        call_requires(Engine::finish_tick, (engine, frames, filtered, controls)),
        call_requires(Engine::route, (engine, &frames)),
{
}

/// A new engine is ready for its first tick, whatever its routing and its rates.
pub proof fn law_a_new_engine_is_ready(
    routing: crate::engine::Routing,
    mic: u32,
    sys: u32,
    engine: Engine,
    panel: Panel,
    flag: bool,
)
    requires
        call_ensures(Engine::new, (routing, mic, sys), engine),
    ensures
        call_requires(Engine::new, (routing, mic, sys)),
        engine.wf(),
        engine@.ticks < 50,
        call_requires(next_step, (&panel, flag, flag)),
{
}

/// Any buffer is flushed, and a channel takes any answers unless a reset is due.
pub proof fn law_any_answers_are_taken(
    buffer: &mut String,
    source: AudioSource,
    channel: &mut ParakeetChannel,
    answers: &Vec<Option<String>>,
)
    requires
        old(channel)@.valid(),
        old(channel)@.streak < usize::MAX,
    ensures
        call_requires(flush, (buffer, source)),
        call_requires(ParakeetChannel::on_timeout, (channel, answers)),
        call_requires(ParakeetChannel::on_disconnect, (channel,)),
        !(old(channel)@.warmed_up && old(channel)@.streak == 12) ==> call_requires(
            ParakeetChannel::on_texts,
            (channel, answers),
        ),
        old(channel)@.warmed_up && old(channel)@.streak == 12 ==> call_requires(
            ParakeetChannel::finish_reset,
            (channel, answers),
        ),
{
}

/// Any segments are judged and any batches collected.
pub proof fn law_any_segments_are_judged(
    text: &str,
    source: AudioSource,
    segments: &Vec<Option<String>>,
    channel: &mut WhisperChannel,
    batches: &Vec<Vec<u32>>,
    seconds: u32,
)
    ensures
        call_requires(is_artifact, (text,)),
        call_requires(segment_transcripts, (source, segments)),
        call_requires(WhisperChannel::on_batches, (channel, batches)),
        seconds * 16000 <= usize::MAX ==> call_requires(window_samples, (seconds,)),
{
}

/// Any message of the service is handled, and any frame offered to it.
pub proof fn law_any_message_is_handled(
    message: TranscriptMessage,
    incoming: Incoming,
    uplink: Uplink,
    frame: Option<Vec<u8>>,
    url: String,
    scheme: &str,
    token: &str,
    client: WebSocketClient,
)
    ensures
        call_requires(TranscriptMessage::event, (&message,)),
        call_requires(on_incoming, (incoming,)),
        call_requires(Uplink::on_frame, (&uplink, frame)),
        call_requires(authorized_request, (url, scheme, token)),
        call_requires(connection_request, (token, url)),
        call_requires(WebSocketClient::build_wss_request, (&client,)),
{
}

/// Any numbers become PCM values, any PCM values samples, and any buffers are
/// judged by the echo canceller.
pub proof fn law_any_samples_are_converted(
    bits: u32,
    value: i16,
    frame: &[u32],
    pcm: &[i16],
    canceler: EchoCanceler,
    echo: &[u32],
    out: &mut [u32],
)
    ensures
        is_number(bits) ==> call_requires(quantize, (bits,)),
        call_requires(sample_of, (value,)),
        (forall|i: int| 0 <= i < frame@.len() ==> is_number(#[trigger] frame@[i]))
            ==> call_requires(quantize_frame, (frame,)),
        call_requires(samples_of, (pcm,)),
        call_requires(EchoCanceler::cancel_echo_f32, (&canceler, frame, echo, out)),
        pcm@.len() == old(out)@.len() ==> call_requires(
            EchoCanceler::complete,
            (&canceler, pcm, out),
        ),
{
    if forall|i: int| 0 <= i < frame@.len() ==> is_number(#[trigger] frame@[i]) {
        assert forall|i: int| 0 <= i < frame@.len() implies crate::sample::finite(
            #[trigger] frame@[i],
        ) by {
            assert(is_number(frame@[i]));
        }
    }
}

/// Devices, buffers and notifications of any kind are handled.
pub proof fn law_any_device_event_is_handled(
    observed: u32,
    index: usize,
    count: usize,
    buffer: TapBuffer,
    listener: &mut CoreAudioListener,
    output: u32,
    input: u32,
    selector: u32,
    addresses: &Vec<PropertyAddress>,
    a: DeviceInfo,
    b: DeviceInfo,
    context: &mut IoProcContext,
    samples: &[u32],
    device: OSXInputDevice,
    producer: &mut RingProducer,
    consumer: &mut RingConsumer,
)
    requires
        index < count,
    ensures
        call_requires(snap_to_standard_rate, (observed,)),
        call_requires(tap_action, (index, count, buffer)),
        call_requires(CoreAudioListener::start, (listener,)),
        call_requires(CoreAudioListener::stop, (listener,)),
        call_requires(CoreAudioListener::rebuild, (listener, output, input)),
        call_requires(property_change, (selector, a, b)),
        call_requires(device_changed_listener, (addresses, a, b)),
        call_requires(rates_needed, (addresses,)),
        call_requires(IoProcContext::on_buffer, (context, index, samples)),
        call_requires(OSXInputDevice::start_capture, (&device,)),
        call_requires(RingProducer::push, (producer, samples)),
        call_requires(RingConsumer::drain, (consumer, index)),
{
}

/// Sessions are set up from any settings and started however opening went.
pub proof fn law_any_session_is_set_up(
    builder: SplitStreamBuilder,
    opened: Result<(), OpenError>,
    spec: BackendSpec,
    file: SettingsFile,
    settings: SessionSettings,
    api_key: Option<String>,
)
    ensures
        call_requires(SplitStreamBuilder::start, (builder, opened)),
        (spec matches BackendSpec::Whisper(config) ==> config.window_seconds * 16000
            <= usize::MAX) ==> call_requires(BackendSpec::plan, (&spec,)),
        call_requires(Settings::new, (file,)),
        call_requires(SessionSettings::configure, (settings, api_key)),
{
}

/// The tools of the demo take any input, and a download any number of bytes that it
/// can count.
pub proof fn law_any_input_of_the_tools(
    buffer: &mut [u32],
    rate: u32,
    a: &str,
    b: &str,
    download: &mut Download,
    n: usize,
)
    ensures
        call_requires(mute_buffer, (buffer,)),
        call_requires(_frame_size, (rate,)),
        call_requires(_share_more_than_three, (a, b)),
        old(download).downloaded + n <= u64::MAX ==> call_requires(
            Download::on_read,
            (download, n),
        ),
{
}

} // verus!
