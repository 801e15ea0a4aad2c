use splitstream::audio_input_buffers::AudioInputBuffers;
use splitstream::macos_device::{OSXInputDevice, CAPTURE_BUFFER_SIZE};
use splitstream::ring::ring_buffer;

#[test]
fn samples_come_out_in_order() {
    let (mut producer, mut consumer) = ring_buffer(8);
    assert_eq!(consumer.drain(4), vec![]);
    assert_eq!(producer.push(&[1, 2, 3, 4, 5]), 5);
    assert_eq!(consumer.drain(3), vec![1, 2, 3]);
    assert_eq!(producer.push(&[6, 7]), 2);
    assert_eq!(consumer.drain(100), vec![4, 5, 6, 7]);
    assert_eq!(consumer.drain(100), vec![]);
}

#[test]
fn a_read_takes_all_that_waits() {
    let (mut producer, mut consumer) = ring_buffer(16);
    for n in 0..16usize {
        producer.push(&vec![9; n]);
        assert_eq!(consumer.drain(16).len(), n);
    }
    producer.push(&[1, 2, 3]);
    assert_eq!(consumer.drain(0), vec![]);
    assert_eq!(consumer.drain(1), vec![1]);
    assert_eq!(consumer.drain(9), vec![2, 3]);
}

#[test]
fn a_write_fills_the_room_there_is() {
    let (mut producer, mut consumer) = ring_buffer(8);
    let mut held = 0usize;
    for n in [5usize, 5, 1, 9, 3, 0, 8] {
        let room = 8 - held;
        assert_eq!(producer.push(&vec![1; n]), n.min(room));
        held += n.min(room);
        held -= consumer.drain(3).len();
    }
}

#[test]
fn samples_that_do_not_fit_are_dropped() {
    let (mut producer, mut consumer) = ring_buffer(4);
    assert_eq!(producer.push(&[1, 2, 3, 4, 5, 6]), 4);
    assert_eq!(producer.push(&[7]), 0);
    assert_eq!(consumer.drain(2), vec![1, 2]);
    assert_eq!(producer.push(&[8, 9, 10]), 2);
    assert_eq!(consumer.drain(8), vec![3, 4, 8, 9]);
}

#[test]
fn order_holds_however_the_ends_take_turns() {
    let (mut producer, mut consumer) = ring_buffer(64);
    let mut next = 0u32;
    let mut seen: Vec<u32> = Vec::new();
    let mut turn = 1usize;
    while seen.len() < 10_000 {
        turn = (turn * 75 + 74) % 65_537;
        if turn % 2 == 0 {
            let chunk: Vec<u32> = (next..(next + turn as u32 % 90).min(10_000)).collect();
            next += producer.push(&chunk) as u32;
        } else {
            seen.extend(consumer.drain(turn % 70));
        }
    }
    assert_eq!(seen, (0..10_000).collect::<Vec<u32>>());
}

#[test]
fn input_buffers_are_separate() {
    let buffers = AudioInputBuffers::new(4);
    let ((mut mic_in, mut sys_in), (mut mic_out, mut sys_out)) = buffers.into_buffer_splits();
    assert_eq!(mic_in.push(&[1, 2]), 2);
    assert_eq!(sys_in.push(&[7, 8, 9, 10, 11]), 4);
    assert_eq!(mic_out.drain(8), vec![1, 2]);
    assert_eq!(sys_out.drain(8), vec![7, 8, 9, 10]);
}

#[test]
fn capture_separates_the_sources() {
    let mut device = OSXInputDevice::new(48_000);
    assert_eq!(device.nominal_sample_rate, 48_000);
    assert!(!device._is_capturing());
    let (mut context, (mut mic, mut sys)) = device.start_capture().unwrap();
    device.capture_started();
    assert!(device._is_capturing());
    assert_eq!(context.on_buffer(0, &[1, 2]), 2);
    assert_eq!(context.on_buffer(1, &[3]), 1);
    assert_eq!(context.on_buffer(2, &[4]), 0);
    assert_eq!(mic.drain(8), vec![1, 2]);
    assert_eq!(sys.drain(8), vec![3]);
    let flood = vec![5u32; CAPTURE_BUFFER_SIZE + 1];
    assert_eq!(context.on_buffer(0, &flood), CAPTURE_BUFFER_SIZE);
}

#[test]
fn capture_cannot_start_or_stop_twice() {
    let mut device = OSXInputDevice::new(16_000);
    assert_eq!(device.stop_capture().unwrap_err(), "Not currently capturing");
    assert!(device.start_capture().is_ok());
    device.capture_started();
    assert!(matches!(device.start_capture(), Err(message) if message == "Already capturing"));
    assert!(device.stop_capture().is_ok());
    assert!(!device._is_capturing());
    assert!(device.start_capture().is_ok());
}
