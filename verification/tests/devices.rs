use splitstream::coreaudio_listener::{
    device_changed_listener, get_property_address, rates_needed, AudioPropertyChange,
    CoreAudioListener, DeviceInfo, PropertyAddress, RatesNeeded, Registration, ACTUAL_SAMPLE_RATE,
    DEFAULT_INPUT_DEVICE,
    DEFAULT_OUTPUT_DEVICE, DEVICE_IS_ALIVE, ELEMENT_MAIN, NOMINAL_SAMPLE_RATE, SCOPE_GLOBAL,
    SYSTEM_OBJECT, UNKNOWN_OBJECT,
};
use splitstream::download_parakeet::{
    destination_dir, file_path, file_url, model_files, refusal, Download, DownloadStep,
};
use splitstream::sys_audio_tap::{tap_action, TapAction, TapBuffer};

fn address(selector: u32) -> PropertyAddress {
    get_property_address(selector, SCOPE_GLOBAL, ELEMENT_MAIN)
}

fn expected(output: u32) -> Vec<Registration> {
    vec![
        Registration { object: output, address: address(ACTUAL_SAMPLE_RATE) },
        Registration { object: output, address: address(NOMINAL_SAMPLE_RATE) },
        Registration { object: output, address: address(DEVICE_IS_ALIVE) },
        Registration { object: SYSTEM_OBJECT, address: address(DEFAULT_INPUT_DEVICE) },
        Registration { object: SYSTEM_OBJECT, address: address(DEFAULT_OUTPUT_DEVICE) },
    ]
}

#[test]
fn selectors_are_four_character_codes() {
    assert_eq!(ACTUAL_SAMPLE_RATE, u32::from_be_bytes(*b"asrt"));
    assert_eq!(NOMINAL_SAMPLE_RATE, u32::from_be_bytes(*b"nsrt"));
    assert_eq!(DEVICE_IS_ALIVE, u32::from_be_bytes(*b"livn"));
    assert_eq!(DEFAULT_INPUT_DEVICE, u32::from_be_bytes(*b"dIn "));
    assert_eq!(DEFAULT_OUTPUT_DEVICE, u32::from_be_bytes(*b"dOut"));
    assert_eq!(SCOPE_GLOBAL, u32::from_be_bytes(*b"glob"));
}

#[test]
fn what_is_installed_is_removed() {
    let mut listener = CoreAudioListener::new(41, 42);
    assert_eq!(listener.stop(), vec![]);
    assert_eq!(listener.start(), expected(41));
    assert!(listener.is_listening);
    assert_eq!(listener.start(), vec![]);
    assert_eq!(listener.stop(), expected(41));
    assert!(!listener.is_listening);
    assert_eq!(listener.stop(), vec![]);
}

#[test]
fn nothing_is_installed_without_an_output_device() {
    let mut listener = CoreAudioListener::new(UNKNOWN_OBJECT, 42);
    assert_eq!(listener.start(), vec![]);
    assert!(listener.is_listening);
    assert_eq!(listener.stop(), vec![]);
}

#[test]
fn rebuilding_moves_to_the_new_devices() {
    let mut listener = CoreAudioListener::new(41, 42);
    listener.start();
    let (removed, installed) = listener.rebuild(51, 52);
    assert_eq!(removed, expected(41));
    assert_eq!(installed, expected(51));
    assert_eq!(listener.default_output_device, 51);
    assert_eq!(listener.default_input_device, 52);
    assert!(listener.is_listening);
}

#[test]
fn notifications_become_events() {
    let output = DeviceInfo { id: 41, hz: 48_000 };
    let input = DeviceInfo { id: 42, hz: 16_000 };
    let changed = vec![
        address(ACTUAL_SAMPLE_RATE),
        address(NOMINAL_SAMPLE_RATE),
        address(DEVICE_IS_ALIVE),
        address(DEFAULT_INPUT_DEVICE),
        address(DEFAULT_OUTPUT_DEVICE),
        address(0),
    ];
    assert_eq!(
        device_changed_listener(&changed, output, input),
        vec![
            AudioPropertyChange::ActualSampleRate { hz: 48_000 },
            AudioPropertyChange::ActualSampleRate { hz: 48_000 },
            AudioPropertyChange::DeviceIsAlive,
            AudioPropertyChange::HardwareDefaultInputDevice { id: 42, hz: 16_000 },
            AudioPropertyChange::HardwareDefaultOutputDevice { id: 41, hz: 48_000 },
            AudioPropertyChange::Unknown,
        ]
    );
}

#[test]
fn only_needed_rates_are_read() {
    let needed = |selectors: &[u32]| {
        rates_needed(&selectors.iter().map(|&selector| address(selector)).collect())
    };
    assert_eq!(needed(&[]), RatesNeeded { output: false, input: false });
    assert_eq!(needed(&[DEVICE_IS_ALIVE, 0]), RatesNeeded { output: false, input: false });
    assert_eq!(needed(&[NOMINAL_SAMPLE_RATE]), RatesNeeded { output: true, input: false });
    assert_eq!(needed(&[DEFAULT_OUTPUT_DEVICE]), RatesNeeded { output: true, input: false });
    assert_eq!(needed(&[DEFAULT_INPUT_DEVICE]), RatesNeeded { output: false, input: true });
    assert_eq!(
        needed(&[DEVICE_IS_ALIVE, ACTUAL_SAMPLE_RATE, DEFAULT_INPUT_DEVICE]),
        RatesNeeded { output: true, input: true }
    );
}

#[test]
fn only_the_last_tap_buffer_is_stored() {
    let buffer = TapBuffer { number_channels: 1, data_bytes_size: 2048, is_null: false };
    assert_eq!(tap_action(0, 2, buffer), TapAction::Skip);
    assert_eq!(tap_action(1, 2, buffer), TapAction::Store { samples: 512 });
    assert_eq!(tap_action(0, 1, buffer), TapAction::Store { samples: 512 });
}

#[test]
fn tap_buffers_by_layout() {
    let buffer = |number_channels: u32, data_bytes_size: u32, is_null: bool| TapBuffer {
        number_channels,
        data_bytes_size,
        is_null,
    };
    assert_eq!(
        tap_action(0, 1, buffer(2, 2052, false)),
        TapAction::Mix { frames: 256, channels: 2 }
    );
    assert_eq!(
        tap_action(0, 1, buffer(3, 2048, false)),
        TapAction::Mix { frames: 170, channels: 3 }
    );
    assert_eq!(tap_action(0, 1, buffer(1, 2050, false)), TapAction::Store { samples: 512 });
    assert_eq!(tap_action(0, 1, buffer(0, 2048, false)), TapAction::Skip);
    assert_eq!(tap_action(0, 1, buffer(2, 4, false)), TapAction::Skip);
    assert_eq!(tap_action(0, 1, buffer(1, 3, false)), TapAction::Skip);
    assert_eq!(tap_action(0, 1, buffer(1, 2048, true)), TapAction::Skip);
}

#[test]
fn model_files_and_their_places() {
    assert_eq!(model_files(), vec!["tokenizer.json", "decoder_joint.onnx", "encoder.onnx"]);
    assert_eq!(destination_dir(), "./models/parakeet-eou");
    assert_eq!(
        file_url("encoder.onnx"),
        "https://huggingface.co/altunenes/parakeet-rs/resolve/main/realtime_eou_120m-v1-onnx/encoder.onnx"
    );
    assert_eq!(file_path("encoder.onnx"), "./models/parakeet-eou/encoder.onnx");
}

#[test]
fn only_successful_responses_are_saved() {
    assert_eq!(refusal(true, "200 OK"), None);
    assert_eq!(refusal(false, "404 Not Found"), Some("HTTP 404 Not Found".to_string()));
}

#[test]
fn download_progress() {
    let mut download = Download::new(Some(100));
    assert_eq!(download.on_read(60), DownloadStep::Write(60));
    assert_eq!(download.on_read(40), DownloadStep::Write(40));
    assert_eq!(download.on_read(0), DownloadStep::Done);
    assert_eq!(download, Download { downloaded: 100, total: Some(100) });
}
