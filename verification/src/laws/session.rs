//! How a session is set up, controlled and ended.

use crate::builder::{
    BackendPlan, BackendSpec, DeepgramConfig, ParakeetConfig, SplitStreamBuilder, WhisperConfig,
};
use crate::engine::Routing;
use crate::error::{OpenError, SplitStreamError};
use crate::handle::{Controls, Panel, SplitStreamHandle};
use crate::settings::{
    default_transcription_backend, default_whisper_window_seconds, MissingApiKey, SessionSettings,
    Settings, SettingsFile,
};
use crate::transcript::Transcript;
use vstd::prelude::*;
use vstd::string::*;

verus! {

/// A fresh builder has no backend, mutes nothing and cancels no echo.
pub proof fn law_fresh_builder(builder: SplitStreamBuilder, other: SplitStreamBuilder)
    requires
        call_ensures(SplitStreamBuilder::new, (), builder),
        call_ensures(<SplitStreamBuilder as Default>::default, (), other),
    ensures
        builder.chosen() is None,
        !builder.controls().mic_muted,
        !builder.controls().sys_muted,
        !builder.controls().echo_cancellation,
        other.chosen() is None,
        !other.controls().mic_muted,
        !other.controls().sys_muted,
        !other.controls().echo_cancellation,
{
}

/// Each switch of a builder is set on its own; the others and the backend stay.
pub proof fn law_builder_switches(
    builder: SplitStreamBuilder,
    on: bool,
    mic: SplitStreamBuilder,
    sys: SplitStreamBuilder,
    echo: SplitStreamBuilder,
)
    requires
        call_ensures(SplitStreamBuilder::mic_muted, (builder, on), mic),
        call_ensures(SplitStreamBuilder::sys_muted, (builder, on), sys),
        call_ensures(SplitStreamBuilder::echo_cancellation, (builder, on), echo),
    ensures
        mic.controls().mic_muted == on,
        mic.controls().sys_muted == builder.controls().sys_muted,
        mic.controls().echo_cancellation == builder.controls().echo_cancellation,
        mic.chosen() == builder.chosen(),
        sys.controls().mic_muted == builder.controls().mic_muted,
        sys.controls().sys_muted == on,
        sys.controls().echo_cancellation == builder.controls().echo_cancellation,
        sys.chosen() == builder.chosen(),
        echo.controls().mic_muted == builder.controls().mic_muted,
        echo.controls().sys_muted == builder.controls().sys_muted,
        echo.controls().echo_cancellation == on,
        echo.chosen() == builder.chosen(),
{
}

/// A backend chosen with its configuration replaces an earlier choice and leaves the
/// switches alone.
pub proof fn law_last_backend_is_chosen(
    builder: SplitStreamBuilder,
    deepgram: DeepgramConfig,
    whisper: WhisperConfig,
    parakeet: ParakeetConfig,
    a: SplitStreamBuilder,
    b: SplitStreamBuilder,
    c: SplitStreamBuilder,
)
    requires
        call_ensures(SplitStreamBuilder::with_deepgram_config, (builder, deepgram), a),
        call_ensures(SplitStreamBuilder::with_whisper_config, (builder, whisper), b),
        call_ensures(SplitStreamBuilder::with_parakeet_config, (builder, parakeet), c),
    ensures
        a.chosen() == Some(BackendSpec::Deepgram(deepgram)),
        b.chosen() == Some(BackendSpec::Whisper(whisper)),
        c.chosen() == Some(BackendSpec::Parakeet(parakeet)),
        a.controls() == builder.controls(),
        b.controls() == builder.controls(),
        c.controls() == builder.controls(),
{
}

/// A backend chosen by a text alone gets that text, and the defaults: the nova-3
/// model for Deepgram, a window of four seconds for Whisper.
pub proof fn law_backends_by_text(
    builder: SplitStreamBuilder,
    text: String,
    a: SplitStreamBuilder,
    b: SplitStreamBuilder,
    c: SplitStreamBuilder,
)
    requires
        call_ensures(SplitStreamBuilder::with_deepgram::<String>, (builder, text), a),
        call_ensures(SplitStreamBuilder::with_whisper::<String>, (builder, text), b),
        call_ensures(SplitStreamBuilder::with_parakeet::<String>, (builder, text), c),
    ensures
        a.chosen() matches Some(BackendSpec::Deepgram(config)) && config.api_key@ == text@
            && config.model@ == "nova-3"@,
        b.chosen() matches Some(BackendSpec::Whisper(config)) && config.model_path@ == text@
            && config.window_seconds == 4,
        c.chosen() matches Some(BackendSpec::Parakeet(config)) && config.model_dir@ == text@,
        a.controls() == builder.controls(),
        b.controls() == builder.controls(),
        c.controls() == builder.controls(),
{
}

/// A session starts exactly if a backend was chosen and everything could be opened.
/// It runs with that backend and with the switches as they were set. Without a
/// backend the error is `NoBackend`, otherwise the one that opening met.
pub proof fn law_when_a_session_starts(
    builder: SplitStreamBuilder,
    opened: Result<(), OpenError>,
    session: Result<(SplitStreamHandle, BackendSpec), SplitStreamError>,
)
    requires
        call_ensures(SplitStreamBuilder::start, (builder, opened), session),
    ensures
        session is Ok <==> builder.chosen() is Some && opened is Ok,
        session matches Ok((handle, spec)) ==> {
            &&& Some(spec) == builder.chosen()
            &&& handle.panel.controls.mic_muted == builder.controls().mic_muted
            &&& handle.panel.controls.sys_muted == builder.controls().sys_muted
            &&& handle.panel.controls.echo_cancellation == builder.controls().echo_cancellation
            &&& !handle.panel.shutdown_requested
        },
        builder.chosen() is None ==> session matches Err(SplitStreamError::NoBackend),
        builder.chosen() is Some ==> match opened {
            Ok(_) => true,
            Err(OpenError::NoMicDevice) => session matches Err(SplitStreamError::NoMicDevice),
            Err(OpenError::SysAudioTap(cause)) => session matches Err(
                SplitStreamError::SysAudioTap(text),
            ) && text@ == cause@,
            Err(OpenError::ModelLoad(cause)) => session matches Err(
                SplitStreamError::ModelLoad(text),
            ) && text@ == cause@,
        },
{
}

/// The chosen backend can be looked at.
pub proof fn law_chosen_backend_is_shown(builder: SplitStreamBuilder, shown: Option<&BackendSpec>)
    requires
        call_ensures(SplitStreamBuilder::backend, (&builder,), shown),
    ensures
        shown is Some <==> builder.chosen() is Some,
        shown matches Some(spec) ==> Some(*spec) == builder.chosen(),
{
}

/// Each backend has its own way of routing, and its plan holds what it was
/// configured with.
pub proof fn law_plans(spec: BackendSpec, routing: Routing, plan: BackendPlan)
    requires
        call_ensures(BackendSpec::routing, (&spec,), routing),
        call_ensures(BackendSpec::plan, (&spec,), plan),
    ensures
        match spec {
            BackendSpec::Deepgram(config) => routing is Deepgram && (plan matches BackendPlan::Deepgram {
                api_key,
                ws_url,
            } && api_key@ == config.api_key@ && ws_url@
                == "wss://api.deepgram.com/v1/listen?encoding=opus&sample_rate=16000&channels=2&multichannel=true&model="@
                + config.model@),
            BackendSpec::Whisper(config) => routing is Whisper && (plan matches BackendPlan::Whisper {
                model_path,
                window_samples,
            } && model_path@ == config.model_path@ && window_samples == 16000
                * config.window_seconds),
            BackendSpec::Parakeet(config) => routing is Parakeet && (plan matches BackendPlan::Parakeet {
                model_dir,
            } && model_dir@ == config.model_dir@),
        },
{
}

/// A switch of a running session changes alone; nothing but a shutdown ends it.
pub proof fn law_handle_switches(
    mic: &mut SplitStreamHandle,
    sys: &mut SplitStreamHandle,
    echo: &mut SplitStreamHandle,
    on: bool,
)
    requires
        call_ensures(SplitStreamHandle::set_mic_muted, (mic, on), ()),
        call_ensures(SplitStreamHandle::set_sys_muted, (sys, on), ()),
        call_ensures(SplitStreamHandle::set_echo_cancellation, (echo, on), ()),
    ensures
        final(mic).panel.controls.mic_muted == on,
        final(mic).panel.controls.sys_muted == old(mic).panel.controls.sys_muted,
        final(mic).panel.controls.echo_cancellation == old(mic).panel.controls.echo_cancellation,
        final(mic).panel.shutdown_requested == old(mic).panel.shutdown_requested,
        final(sys).panel.controls.mic_muted == old(sys).panel.controls.mic_muted,
        final(sys).panel.controls.sys_muted == on,
        final(sys).panel.controls.echo_cancellation == old(sys).panel.controls.echo_cancellation,
        final(sys).panel.shutdown_requested == old(sys).panel.shutdown_requested,
        final(echo).panel.controls.mic_muted == old(echo).panel.controls.mic_muted,
        final(echo).panel.controls.sys_muted == old(echo).panel.controls.sys_muted,
        final(echo).panel.controls.echo_cancellation == on,
        final(echo).panel.shutdown_requested == old(echo).panel.shutdown_requested,
{
}

/// A new handle has the given switches and no shutdown; a shutdown requests the end
/// and leaves the switches alone.
pub proof fn law_handle_begins_and_ends(
    mic_muted: bool,
    sys_muted: bool,
    echo_cancellation: bool,
    controls: Controls,
    handle: SplitStreamHandle,
    panel: Panel,
)
    requires
        call_ensures(Controls::new, (mic_muted, sys_muted, echo_cancellation), controls),
        call_ensures(SplitStreamHandle::new, (controls,), handle),
        call_ensures(SplitStreamHandle::shutdown, (handle,), panel),
    ensures
        handle.panel.controls.mic_muted == mic_muted,
        handle.panel.controls.sys_muted == sys_muted,
        handle.panel.controls.echo_cancellation == echo_cancellation,
        !handle.panel.shutdown_requested,
        panel.controls == handle.panel.controls,
        panel.shutdown_requested,
{
}

/// Settings that were given are kept; left-out ones are Deepgram, no paths and four
/// seconds.
pub proof fn law_settings_defaults(file: SettingsFile, settings: Settings)
    requires
        call_ensures(Settings::new, (file,), settings),
    ensures
        settings.compliance_mode_on_start == file.compliance_mode_on_start,
        settings.echo_cancellation == file.echo_cancellation,
        match file.transcription_backend {
            Some(text) => settings.transcription_backend@ == text@,
            None => settings.transcription_backend@ == "deepgram"@,
        },
        match file.whisper_model_path {
            Some(text) => settings.whisper_model_path@ == text@,
            None => settings.whisper_model_path@.len() == 0,
        },
        match file.whisper_vad_model_path {
            Some(text) => settings.whisper_vad_model_path@ == text@,
            None => settings.whisper_vad_model_path@.len() == 0,
        },
        match file.whisper_window_seconds {
            Some(seconds) => settings.whisper_window_seconds == seconds,
            None => settings.whisper_window_seconds == 4,
        },
{
}

/// The demo uses Whisper exactly if the settings name it, and Deepgram otherwise.
pub proof fn law_demo_backend(settings: Settings, routing: Routing)
    requires
        call_ensures(Settings::routing, (&settings,), routing),
    ensures
        routing is Whisper <==> settings.transcription_backend@ == "whisper"@,
        routing is Deepgram <==> settings.transcription_backend@ != "whisper"@,
{
}

/// The settings choose the backend and the first switches; only Deepgram needs a
/// key, and only its absence keeps a session from being set up.
pub proof fn law_settings_choose_the_backend(
    settings: SessionSettings,
    api_key: Option<String>,
    builder: Result<SplitStreamBuilder, MissingApiKey>,
)
    requires
        call_ensures(SessionSettings::configure, (settings, api_key), builder),
    ensures
        builder is Err <==> api_key is None && settings.transcription_backend@ != "parakeet"@
            && settings.transcription_backend@ != "whisper"@,
        builder matches Ok(b) ==> {
            &&& !b.controls().mic_muted
            &&& b.controls().sys_muted == settings.compliance_mode_on_start
            &&& b.controls().echo_cancellation == settings.echo_cancellation
            &&& match b.chosen() {
                Some(BackendSpec::Parakeet(config)) => settings.transcription_backend@
                    == "parakeet"@ && config.model_dir@ == settings.parakeet_model_dir@,
                Some(BackendSpec::Whisper(config)) => settings.transcription_backend@ == "whisper"@
                    && config.model_path@ == settings.whisper_model_path@ && config.window_seconds
                    == settings.whisper_window_seconds,
                Some(BackendSpec::Deepgram(config)) => settings.transcription_backend@
                    != "parakeet"@ && settings.transcription_backend@ != "whisper"@ && config.model@
                    == "nova-3"@ && api_key is Some && config.api_key@ == api_key->0@,
                None => false,
            }
        },
{
    reveal_strlit("parakeet");
    reveal_strlit("whisper");
    assert("parakeet"@.len() == 8 && "whisper"@.len() == 7);
}

/// The text of a session error names what failed and ends with the cause, if there
/// is one.
pub proof fn law_session_error_texts(error: SplitStreamError, message: String)
    requires
        call_ensures(SplitStreamError::message, (&error,), message),
    ensures
        match error {
            SplitStreamError::NoBackend => message@
                == "no backend configured — call with_deepgram, with_whisper, or with_parakeet"@,
            SplitStreamError::NoMicDevice => message@ == "no default microphone device found"@,
            SplitStreamError::SysAudioTap(cause) => message@ == "sys audio tap failed: "@ + cause@,
            SplitStreamError::ModelLoad(cause) => message@ == "model load failed: "@ + cause@,
        },
{
}

/// What opening met is reported as what it is, with its cause.
pub proof fn law_open_errors_are_reported(met: OpenError, reported: SplitStreamError)
    requires
        call_ensures(OpenError::report, (met,), reported),
    ensures
        match met {
            OpenError::NoMicDevice => reported is NoMicDevice,
            OpenError::SysAudioTap(cause) => reported matches SplitStreamError::SysAudioTap(text)
                && text@ == cause@,
            OpenError::ModelLoad(cause) => reported matches SplitStreamError::ModelLoad(text)
                && text@ == cause@,
        },
{
}

/// A copy of a transcript has its source, its text and its finality.
pub proof fn law_transcripts_are_copied(transcript: Transcript, copy: Transcript)
    requires
        call_ensures(<Transcript as Clone>::clone, (&transcript,), copy),
    ensures
        copy.source == transcript.source,
        copy.text@ == transcript.text@,
        copy.is_final == transcript.is_final,
{
}

/// Left-out settings stand for Deepgram and a window of four seconds.
pub proof fn law_defaults(name: String, seconds: u32)
    requires
        call_ensures(default_transcription_backend, (), name),
        call_ensures(default_whisper_window_seconds, (), seconds),
    ensures
        name@ == "deepgram"@,
        seconds == 4,
{
}

} // verus!
