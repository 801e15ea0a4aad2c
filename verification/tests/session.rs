use splitstream::audio::mic_capture::maybe_rebuild;
use splitstream::builder::BackendPlan;
use splitstream::engine::Routing;
use splitstream::settings::{MissingApiKey, SessionSettings, Settings, SettingsFile};
use splitstream::{
    BackendSpec, Controls, DeepgramConfig, OpenError, ParakeetConfig, SplitStreamBuilder,
    SplitStreamError, WhisperConfig,
};

#[test]
fn a_session_needs_a_backend() {
    assert!(matches!(
        SplitStreamBuilder::new().mic_muted(true).start(Ok(())),
        Err(SplitStreamError::NoBackend)
    ));
    assert!(SplitStreamBuilder::default().start(Ok(())).is_err());
}

#[test]
fn a_session_reports_what_could_not_be_opened() {
    let builder = || SplitStreamBuilder::new().with_parakeet("./models/parakeet-eou");
    assert!(matches!(
        builder().start(Err(OpenError::NoMicDevice)),
        Err(SplitStreamError::NoMicDevice)
    ));
    assert!(matches!(
        builder().start(Err(OpenError::SysAudioTap("tap UID".to_string()))),
        Err(SplitStreamError::SysAudioTap(cause)) if cause == "tap UID"
    ));
    assert!(matches!(
        builder().start(Err(OpenError::ModelLoad("no such file".to_string()))),
        Err(SplitStreamError::ModelLoad(cause)) if cause == "no such file"
    ));
    assert!(matches!(
        SplitStreamBuilder::new().start(Err(OpenError::NoMicDevice)),
        Err(SplitStreamError::NoBackend)
    ));
}

#[test]
fn the_chosen_backend_can_be_looked_at() {
    assert!(SplitStreamBuilder::new().backend().is_none());
    let builder = SplitStreamBuilder::new().with_deepgram("key");
    assert!(matches!(builder.backend(), Some(BackendSpec::Deepgram(config))
        if config.api_key == "key" && config.model == "nova-3"));
}

#[test]
fn the_last_backend_wins() {
    let (_, spec) = SplitStreamBuilder::new()
        .with_deepgram("key")
        .with_whisper("model.bin".to_string())
        .start(Ok(()))
        .unwrap();
    match spec {
        BackendSpec::Whisper(config) => {
            assert_eq!(config.model_path, "model.bin");
            assert_eq!(config.window_seconds, 4);
        }
        other => panic!("{other:?}"),
    }
}

#[test]
fn switches_are_independent() {
    let (handle, _) = SplitStreamBuilder::new()
        .with_parakeet("dir")
        .sys_muted(true)
        .echo_cancellation(true)
        .sys_muted(false)
        .mic_muted(true)
        .start(Ok(()))
        .unwrap();
    assert_eq!(
        handle.panel.controls,
        Controls { mic_muted: true, sys_muted: false, echo_cancellation: true }
    );
    assert!(!handle.panel.shutdown_requested);
}

#[test]
fn switches_change_while_running() {
    let (mut handle, _) =
        SplitStreamBuilder::new().with_deepgram("key".to_string()).start(Ok(())).unwrap();
    assert_eq!(handle.panel.controls, Controls::new(false, false, false));
    handle.set_mic_muted(true);
    assert_eq!(handle.panel.controls, Controls::new(true, false, false));
    handle.set_sys_muted(true);
    handle.set_mic_muted(false);
    assert_eq!(handle.panel.controls, Controls::new(false, true, false));
    handle.set_echo_cancellation(true);
    assert_eq!(handle.panel.controls, Controls::new(false, true, true));
    assert!(!handle.panel.shutdown_requested);
    let panel = handle.shutdown();
    assert!(panel.shutdown_requested);
    assert_eq!(panel.controls, Controls::new(false, true, true));
}

#[test]
fn plans_of_the_backends() {
    let spec = BackendSpec::Deepgram(DeepgramConfig {
        api_key: "key".to_string(),
        model: "nova-2".to_string(),
    });
    assert_eq!(spec.routing(), Routing::Deepgram);
    match spec.plan() {
        BackendPlan::Deepgram { api_key, ws_url } => {
            assert_eq!(api_key, "key");
            assert!(ws_url.starts_with("wss://api.deepgram.com/v1/listen?encoding=opus"));
            assert!(ws_url.ends_with("&model=nova-2"));
        }
        other => panic!("{other:?}"),
    }
    let (_, spec) = SplitStreamBuilder::new()
        .with_whisper_config(WhisperConfig { model_path: "m".to_string(), window_seconds: 2 })
        .start(Ok(()))
        .unwrap();
    assert_eq!(spec.routing(), Routing::Whisper);
    match spec.plan() {
        BackendPlan::Whisper { model_path, window_samples } => {
            assert_eq!(model_path, "m");
            assert_eq!(window_samples, 32_000);
        }
        other => panic!("{other:?}"),
    }
    let (_, spec) = SplitStreamBuilder::new()
        .with_parakeet_config(ParakeetConfig { model_dir: "d".to_string() })
        .start(Ok(()))
        .unwrap();
    assert_eq!(spec.routing(), Routing::Parakeet);
    match spec.plan() {
        BackendPlan::Parakeet { model_dir } => assert_eq!(model_dir, "d"),
        other => panic!("{other:?}"),
    }
}

#[test]
fn deepgram_config_is_kept() {
    let config = DeepgramConfig { api_key: "k".to_string(), model: "m".to_string() };
    let (_, spec) = SplitStreamBuilder::new().with_deepgram_config(config).start(Ok(())).unwrap();
    match spec {
        BackendSpec::Deepgram(config) => {
            assert_eq!(config.api_key, "k");
            assert_eq!(config.model, "m");
        }
        other => panic!("{other:?}"),
    }
}

#[test]
fn session_error_messages() {
    assert_eq!(
        SplitStreamError::NoBackend.message(),
        "no backend configured — call with_deepgram, with_whisper, or with_parakeet"
    );
    assert_eq!(
        SplitStreamError::NoMicDevice.message(),
        "no default microphone device found"
    );
    assert_eq!(
        SplitStreamError::SysAudioTap("x".to_string()).message(),
        "sys audio tap failed: x"
    );
    assert_eq!(
        SplitStreamError::ModelLoad("y".to_string()).message(),
        "model load failed: y"
    );
}

#[test]
fn left_out_settings_get_defaults() {
    let settings = Settings::new(SettingsFile {
        compliance_mode_on_start: true,
        echo_cancellation: false,
        transcription_backend: None,
        whisper_model_path: None,
        whisper_vad_model_path: None,
        whisper_window_seconds: None,
    });
    assert!(settings.compliance_mode_on_start);
    assert!(!settings.echo_cancellation);
    assert_eq!(settings.transcription_backend, "deepgram");
    assert_eq!(settings.whisper_model_path, "");
    assert_eq!(settings.whisper_vad_model_path, "");
    assert_eq!(settings.whisper_window_seconds, 4);
    assert_eq!(settings.routing(), Routing::Deepgram);
}

#[test]
fn given_settings_are_kept() {
    let settings = Settings::new(SettingsFile {
        compliance_mode_on_start: false,
        echo_cancellation: true,
        transcription_backend: Some("whisper".to_string()),
        whisper_model_path: Some("model".to_string()),
        whisper_vad_model_path: Some("vad".to_string()),
        whisper_window_seconds: Some(9),
    });
    assert!(settings.echo_cancellation);
    assert_eq!(settings.whisper_model_path, "model");
    assert_eq!(settings.whisper_vad_model_path, "vad");
    assert_eq!(settings.whisper_window_seconds, 9);
    assert_eq!(settings.routing(), Routing::Whisper);
}

fn session(backend: &str) -> SessionSettings {
    SessionSettings {
        compliance_mode_on_start: true,
        echo_cancellation: true,
        transcription_backend: backend.to_string(),
        whisper_model_path: "model".to_string(),
        whisper_window_seconds: 7,
        parakeet_model_dir: "dir".to_string(),
    }
}

#[test]
fn settings_choose_the_backend() {
    let (handle, spec) = session("parakeet").configure(None).unwrap().start(Ok(())).unwrap();
    assert_eq!(handle.panel.controls, Controls::new(false, true, true));
    assert!(matches!(spec, BackendSpec::Parakeet(config) if config.model_dir == "dir"));
    let (_, spec) = session("whisper").configure(None).unwrap().start(Ok(())).unwrap();
    assert!(matches!(spec, BackendSpec::Whisper(config)
        if config.model_path == "model" && config.window_seconds == 7));
    let key = Some("key".to_string());
    let (_, spec) = session("anything").configure(key).unwrap().start(Ok(())).unwrap();
    assert!(matches!(spec, BackendSpec::Deepgram(config)
        if config.api_key == "key" && config.model == "nova-3"));
    assert_eq!(session("deepgram").configure(None).unwrap_err(), MissingApiKey);
}

#[test]
fn a_stream_is_rebuilt_on_a_new_rate() {
    assert_eq!(maybe_rebuild(48_000, Some(24_000)), Some(24_000));
    assert_eq!(maybe_rebuild(48_000, Some(48_000)), None);
    assert_eq!(maybe_rebuild(48_000, None), None);
}
