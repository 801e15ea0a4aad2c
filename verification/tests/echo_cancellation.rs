use splitstream::echo_cancellation::{EchoCancelError, EchoCanceler, EchoStep};

fn aec() -> EchoCanceler {
    EchoCanceler::new()
}

fn silent(n: usize) -> Vec<u32> {
    vec![0.0f32.to_bits(); n]
}

#[test]
fn empty_frame_returns_error() {
    let ec = aec();
    let mut out: Vec<u32> = vec![];
    assert!(matches!(
        ec.cancel_echo_f32(&[], &[], &mut out),
        Err(EchoCancelError::EmptyFrame)
    ));
}

#[test]
fn mismatched_lengths_returns_error() {
    let ec = aec();
    let rec = silent(320);
    let echo = silent(319);
    let mut out = silent(320);
    assert!(matches!(
        ec.cancel_echo_f32(&rec, &echo, &mut out),
        Err(EchoCancelError::BufferLengthMismatch { .. })
    ));
}

#[test]
fn mismatch_names_all_three_lengths() {
    let ec = aec();
    let mut out = silent(7);
    assert_eq!(
        ec.cancel_echo_f32(&silent(320), &silent(320), &mut out).unwrap_err(),
        EchoCancelError::BufferLengthMismatch { rec: 320, echo: 320, out: 7 }
    );
}

#[test]
fn wrong_frame_size_returns_error() {
    let ec = aec();
    let buf = silent(100);
    let mut out = silent(100);
    assert!(matches!(
        ec.cancel_echo_f32(&buf, &buf, &mut out),
        Err(EchoCancelError::InvalidFrameSize { .. })
    ));
}

#[test]
fn nan_in_rec_returns_error() {
    let ec = aec();
    let mut rec = silent(320);
    rec[0] = f32::NAN.to_bits();
    let echo = silent(320);
    let mut out = silent(320);
    assert!(matches!(
        ec.cancel_echo_f32(&rec, &echo, &mut out),
        Err(EchoCancelError::NonFiniteInput)
    ));
}

#[test]
fn inf_in_echo_returns_error() {
    let ec = aec();
    let rec = silent(320);
    let mut echo = silent(320);
    echo[10] = f32::INFINITY.to_bits();
    let mut out = silent(320);
    assert!(matches!(
        ec.cancel_echo_f32(&rec, &echo, &mut out),
        Err(EchoCancelError::NonFiniteInput)
    ));
}

#[test]
fn silent_render_bypass_copies_input() {
    let ec = aec();
    let mut rec = silent(320);
    rec[5] = 0.5f32.to_bits();
    rec[100] = (-0.3f32).to_bits();
    let echo = silent(320); // all-zero render
    let mut out = silent(320);
    let step = ec.cancel_echo_f32(&rec, &echo, &mut out).unwrap();
    assert!(matches!(step, EchoStep::Bypassed));
    assert_eq!(out, rec);
}

#[test]
fn render_below_one_step_is_silent() {
    let ec = aec();
    let mut rec = silent(320);
    rec[5] = 0.5f32.to_bits();
    let echo = vec![3.0e-5f32.to_bits(); 320];
    let mut out = silent(320);
    let step = ec.cancel_echo_f32(&rec, &echo, &mut out).unwrap();
    assert!(matches!(step, EchoStep::Bypassed));
    assert_eq!(out, rec);
}

#[test]
fn valid_frame_returns_ok() {
    let ec = aec();
    let rec = silent(320);
    let mut echo = silent(320);
    echo[0] = 0.1f32.to_bits(); // non-zero so AEC actually runs
    let mut out = silent(320);
    assert!(ec.cancel_echo_f32(&rec, &echo, &mut out).is_ok());
}

#[test]
fn filter_gets_clamped_pcm() {
    let ec = aec();
    let mut rec = silent(320);
    rec[0] = 0.5f32.to_bits();
    rec[1] = (-0.5f32).to_bits();
    rec[2] = 1.5f32.to_bits();
    rec[3] = (-1.5f32).to_bits();
    let mut echo = silent(320);
    echo[0] = 0.1f32.to_bits();
    let mut out = silent(320);
    match ec.cancel_echo_f32(&rec, &echo, &mut out).unwrap() {
        EchoStep::Filter { rec, echo } => {
            assert_eq!(rec[..5], [16383, -16383, 32767, -32768, 0]);
            assert_eq!(echo[..2], [3276, 0]);
        }
        EchoStep::Bypassed => panic!("the render frame is not silent"),
    }
    ec.complete(&vec![-16384i16; 320], &mut out);
    assert_eq!(out, vec![(-0.5f32).to_bits(); 320]);
}

#[test]
fn speaker_echo_keeps_the_captured_frame() {
    let mut ec = aec();
    let capture = vec![0.25f32.to_bits(); 320];
    let (frame, step) = ec.cancel_speaker_echo(capture.clone(), silent(320)).unwrap();
    assert_eq!(frame, capture);
    assert!(matches!(step, EchoStep::Bypassed));
    let loud = vec![0.25f32.to_bits(); 320];
    let (frame, step) = ec.cancel_speaker_echo(capture.clone(), loud).unwrap();
    assert_eq!(frame, capture);
    assert!(matches!(step, EchoStep::Filter { .. }));
    assert_eq!(
        ec.cancel_speaker_echo(silent(3), silent(3)).unwrap_err(),
        EchoCancelError::InvalidFrameSize { expected: 320, got: 3 }
    );
}

#[test]
fn parameters_of_the_filter() {
    let config = aec().config();
    assert_eq!(config.sample_rate, 16000);
    assert_eq!(config.filter_length, 3200);
    assert_eq!(config.frame_size, 320);
    assert!(config.enable_preprocess);
}

#[test]
fn echo_error_messages() {
    assert_eq!(
        EchoCancelError::BufferLengthMismatch { rec: 320, echo: 319, out: 0 }.message(),
        "buffer length mismatch: rec=320, echo=319, out=0"
    );
    assert_eq!(
        EchoCancelError::InvalidFrameSize { expected: 320, got: 1234567890 }.message(),
        "invalid frame size: expected 320, got 1234567890"
    );
    assert_eq!(
        EchoCancelError::NonFiniteInput.message(),
        "input contains non-finite values (NaN or Inf)"
    );
    assert_eq!(EchoCancelError::EmptyFrame.message(), "empty frame");
}
