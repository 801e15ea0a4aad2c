use splitstream::audio::resampler::{FINAL_FRAME_SIZE, OUT_SAMPLE_RATE};
use splitstream::engine::{
    discard_backlog, next_step, Engine, Frames, RateUpdate, Routed, Routing, RunStep, DRAIN_LIMIT,
    PARAKEET_BATCH_SAMPLES, RATE_CHECK_TICKS, WHISPER_BATCH_SAMPLES,
};
use splitstream::ring::ring_buffer;
use splitstream::{AudioSource, Controls, SplitStreamHandle};

fn frame(x: f32) -> Vec<u32> {
    vec![x.to_bits(); FINAL_FRAME_SIZE]
}

fn switches(sys_muted: bool, echo_cancellation: bool) -> Controls {
    Controls::new(false, sys_muted, echo_cancellation)
}

fn numbered(from: u32) -> Vec<u32> {
    (from..from + FINAL_FRAME_SIZE as u32).collect()
}

fn frames(mic: Vec<u32>, sys: Vec<u32>) -> Frames {
    Frames { mic, sys, filter: None }
}

fn second(engine: &mut Engine, sys_per_tick: usize) -> RateUpdate {
    for tick in 1..=RATE_CHECK_TICKS {
        let due = engine.accept_samples(&[], &vec![0; sys_per_tick]);
        assert_eq!(due, tick == RATE_CHECK_TICKS);
    }
    engine.check_rates(None)
}

#[test]
fn rates_are_checked_once_a_second() {
    let mut engine = Engine::new(Routing::Deepgram, 48_000, 48_000);
    for _ in 0..3 {
        assert_eq!(second(&mut engine, 960), RateUpdate { mic: None, sys: None });
    }
    assert_eq!(engine.sys_sample_rate(), 48_000);
}

#[test]
fn a_changed_system_rate_is_followed() {
    let mut engine = Engine::new(Routing::Deepgram, 48_000, 48_000);
    assert_eq!(second(&mut engine, 323), RateUpdate { mic: None, sys: Some(16_000) });
    assert_eq!(engine.sys_sample_rate(), 16_000);
    // The buffer was cleared with the change.
    assert_eq!(engine.take_input(AudioSource::Sys, 1), None);
    assert_eq!(second(&mut engine, 323), RateUpdate { mic: None, sys: None });
}

#[test]
fn a_standard_rate_is_adopted() {
    for rate in [8_000usize, 16_000, 32_000, 48_000, 96_000] {
        let mut engine = Engine::new(Routing::Deepgram, 48_000, 44_100);
        let update = second(&mut engine, rate / 50);
        assert_eq!(update.sys, Some(rate as u32));
        assert_eq!(engine.sys_sample_rate(), rate as u32);
    }
}

#[test]
fn rates_can_be_kept() {
    let mut engine = Engine::new(Routing::Deepgram, 48_000, 48_000);
    for _ in 0..2 {
        for tick in 1..=RATE_CHECK_TICKS {
            let due = engine.accept_samples(&[5], &vec![0; 320]);
            assert_eq!(due, tick == RATE_CHECK_TICKS);
        }
        engine.keep_rates();
    }
    assert_eq!(engine.sys_sample_rate(), 48_000);
    assert_eq!(engine.take_input(AudioSource::Mic, 100), Some(vec![5; 100]));
}

#[test]
fn the_filter_hears_a_muted_microphone() {
    let mut engine = Engine::new(Routing::Deepgram, 48_000, 48_000);
    let open = engine.mix(Some(frame(0.5)), Some(frame(0.25)), Controls::new(false, false, true));
    let muted = engine.mix(Some(frame(0.5)), Some(frame(0.25)), Controls::new(true, false, true));
    assert!(open.filter.is_some());
    assert_eq!(open.filter, muted.filter);
}

#[test]
fn silence_from_the_tap_is_no_rate_change() {
    let mut engine = Engine::new(Routing::Deepgram, 48_000, 44_100);
    assert_eq!(second(&mut engine, 0), RateUpdate { mic: None, sys: None });
    assert_eq!(engine.sys_sample_rate(), 44_100);
}

#[test]
fn a_rebuilt_microphone_starts_over() {
    let mut engine = Engine::new(Routing::Deepgram, 48_000, 48_000);
    for _ in 0..RATE_CHECK_TICKS {
        engine.accept_samples(&[1, 2, 3], &vec![0; 960]);
    }
    assert_eq!(engine.check_rates(Some(24_000)), RateUpdate { mic: Some(24_000), sys: None });
    assert_eq!(engine.mic_sample_rate(), 24_000);
    assert_eq!(engine.take_input(AudioSource::Mic, 1), None);
    assert_eq!(engine.take_input(AudioSource::Sys, 2), Some(vec![0, 0]));
}

#[test]
fn ring_buffers_are_drained_in_order() {
    let (mut mic_in, mut mic_out) = ring_buffer(8192);
    let (mut sys_in, mut sys_out) = ring_buffer(8192);
    let mut engine = Engine::new(Routing::Deepgram, 48_000, 48_000);
    let samples: Vec<u32> = (0..5000).collect();
    mic_in.push(&samples);
    sys_in.push(&[7, 8, 9]);
    assert!(!engine.drain(&mut mic_out, &mut sys_out));
    assert_eq!(engine.take_input(AudioSource::Sys, 3), Some(vec![7, 8, 9]));
    assert_eq!(
        engine.take_input(AudioSource::Mic, DRAIN_LIMIT),
        Some(samples[..DRAIN_LIMIT].to_vec())
    );
    assert!(!engine.drain(&mut mic_out, &mut sys_out));
    assert_eq!(engine.take_input(AudioSource::Mic, 5000), Some(samples));
}

#[test]
fn backlog_is_thrown_away() {
    let (mut producer, mut consumer) = ring_buffer(10_000);
    producer.push(&(0..9000).collect::<Vec<u32>>());
    discard_backlog(&mut consumer);
    assert_eq!(consumer.drain(2), vec![8192, 8193]);
}

#[test]
fn input_is_cut_to_two_chunks() {
    let mut engine = Engine::new(Routing::Deepgram, 48_000, 48_000);
    engine.accept_samples(&(0..10).collect::<Vec<u32>>(), &[1, 2]);
    assert_eq!(engine.take_input(AudioSource::Mic, 3), Some(vec![4, 5, 6]));
    engine.finish_input(AudioSource::Mic, 3, true);
    assert_eq!(engine.take_input(AudioSource::Mic, 3), Some(vec![7, 8, 9]));
    engine.finish_input(AudioSource::Mic, 3, true);
    assert_eq!(engine.take_input(AudioSource::Mic, 3), None);
    assert_eq!(engine.take_input(AudioSource::Sys, 3), None);
    assert_eq!(engine.take_input(AudioSource::Sys, 2), Some(vec![1, 2]));
}

#[test]
fn a_failed_resampler_drops_its_input() {
    let mut engine = Engine::new(Routing::Deepgram, 48_000, 48_000);
    engine.accept_samples(&[1, 2, 3], &[4, 5, 6]);
    assert!(engine.take_input(AudioSource::Sys, 2).is_some());
    engine.finish_input(AudioSource::Sys, 2, false);
    assert_eq!(engine.take_input(AudioSource::Sys, 1), None);
    assert_eq!(engine.take_input(AudioSource::Mic, 3), Some(vec![1, 2, 3]));
}

#[test]
fn missing_frames_are_silent() {
    let mut engine = Engine::new(Routing::Deepgram, 48_000, 48_000);
    let mixed = engine.mix(None, None, switches(false, true));
    assert_eq!(mixed.mic, frame(0.0));
    assert_eq!(mixed.sys, frame(0.0));
    assert!(mixed.filter.is_none());
}

#[test]
fn echo_filter_runs_on_audible_render() {
    let mut engine = Engine::new(Routing::Deepgram, OUT_SAMPLE_RATE, 48_000);
    let mut mixed = engine.mix(Some(frame(0.5)), Some(frame(0.25)), switches(false, true));
    let (rec, echo) = mixed.filter.take().unwrap();
    assert_eq!(rec, vec![16383i16; FINAL_FRAME_SIZE]);
    assert_eq!(echo, vec![8191i16; FINAL_FRAME_SIZE]);
    assert_eq!(mixed.mic, frame(0.5));
    engine.apply_filter(&mut mixed, &vec![8192i16; FINAL_FRAME_SIZE]);
    assert_eq!(mixed.mic, frame(0.25));
    assert_eq!(mixed.sys, frame(0.25));
    assert!(mixed.filter.is_none());
}

#[test]
fn echo_filter_is_spared() {
    // Off, too low a rate, nothing rendered, nothing finite.
    let mut engine = Engine::new(Routing::Deepgram, 48_000, 48_000);
    assert!(engine.mix(Some(frame(0.5)), Some(frame(0.25)), switches(false, false)).filter.is_none());
    assert!(engine.mix(Some(frame(0.5)), Some(frame(0.0)), switches(false, true)).filter.is_none());
    let broken = engine.mix(Some(frame(f32::NAN)), Some(frame(0.25)), switches(false, true));
    assert!(broken.filter.is_none());
    assert_eq!(broken.mic, frame(f32::NAN));
    let mut slow = Engine::new(Routing::Deepgram, OUT_SAMPLE_RATE - 1, 48_000);
    assert!(slow.mix(Some(frame(0.5)), Some(frame(0.25)), switches(false, true)).filter.is_none());
}

#[test]
fn muted_system_audio_spares_the_filter() {
    let mut engine = Engine::new(Routing::Deepgram, 48_000, 48_000);
    let mixed = engine.mix(Some(frame(0.5)), Some(frame(0.25)), switches(true, true));
    assert!(mixed.filter.is_none());
    assert_eq!(mixed.mic, frame(0.5));
    assert_eq!(mixed.sys, frame(0.0));
}

#[test]
fn muted_microphone_is_silent() {
    let mut mixed = frames(frame(0.5), frame(0.25));
    mixed.mute_mic(false);
    assert_eq!(mixed.mic, frame(0.5));
    mixed.mute_mic(true);
    assert_eq!(mixed.mic, frame(0.0));
    assert_eq!(mixed.sys, frame(0.25));
}

#[test]
fn a_tick_ends_with_filter_then_mute_then_routing() {
    let mut engine = Engine::new(Routing::Deepgram, 48_000, 48_000);
    let stereo = |routed: Routed| match routed {
        Routed::Stereo(stereo) => (stereo[0], stereo[1]),
        Routed::Batches(_) => panic!("Deepgram takes stereo frames"),
    };
    let quiet = engine.mix(Some(frame(0.5)), None, switches(false, true));
    assert_eq!(
        stereo(engine.finish_tick(quiet, None, Controls::new(false, false, true))),
        (0.5f32.to_bits(), 0.0f32.to_bits())
    );
    let filtered = Some(vec![8192i16; FINAL_FRAME_SIZE]);
    let loud = engine.mix(Some(frame(0.5)), Some(frame(0.75)), switches(false, true));
    assert_eq!(
        stereo(engine.finish_tick(loud, filtered.clone(), Controls::new(false, false, true))),
        (0.25f32.to_bits(), 0.75f32.to_bits())
    );
    let muted = engine.mix(Some(frame(0.5)), Some(frame(0.75)), switches(false, true));
    assert_eq!(
        stereo(engine.finish_tick(muted, filtered, Controls::new(true, false, true))),
        (0.0f32.to_bits(), 0.75f32.to_bits())
    );
}

#[test]
fn deepgram_gets_interleaved_frames() {
    let mut engine = Engine::new(Routing::Deepgram, 48_000, 48_000);
    match engine.route(&frames(numbered(0), numbered(1000))) {
        Routed::Stereo(stereo) => {
            assert_eq!(stereo.len(), 640);
            assert_eq!(stereo[..4], [0, 1000, 1, 1001]);
            let left: Vec<u32> = stereo.iter().copied().step_by(2).collect();
            let right: Vec<u32> = stereo.iter().copied().skip(1).step_by(2).collect();
            assert_eq!(left, numbered(0));
            assert_eq!(right, numbered(1000));
        }
        Routed::Batches(_) => panic!("Deepgram takes stereo frames"),
    }
}

fn stream(routing: Routing, ticks: u32) -> (Vec<usize>, Vec<u32>, Vec<u32>) {
    let mut engine = Engine::new(routing, 48_000, 48_000);
    let (mut sizes, mut mic, mut sys) = (Vec::new(), Vec::new(), Vec::new());
    for tick in 0..ticks {
        match engine.route(&frames(numbered(tick * 320), numbered(1_000_000 + tick * 320))) {
            Routed::Batches(list) => {
                for batch in list {
                    sizes.push(batch.mic.len());
                    assert_eq!(batch.mic.len(), batch.sys.len());
                    mic.extend(batch.mic);
                    sys.extend(batch.sys);
                }
            }
            Routed::Stereo(_) => panic!("local backends take batches"),
        }
    }
    (sizes, mic, sys)
}

#[test]
fn whisper_gets_half_seconds() {
    let (sizes, mic, sys) = stream(Routing::Whisper, 74);
    assert_eq!(sizes, vec![WHISPER_BATCH_SAMPLES; 2]);
    assert_eq!(mic, (0..16_000).collect::<Vec<u32>>());
    assert_eq!(sys, (1_000_000..1_016_000).collect::<Vec<u32>>());
}

#[test]
fn parakeet_gets_model_chunks() {
    let (sizes, mic, sys) = stream(Routing::Parakeet, 23);
    assert_eq!(sizes, vec![PARAKEET_BATCH_SAMPLES; 2]);
    assert_eq!(mic, (0..5120).collect::<Vec<u32>>());
    assert_eq!(sys, (1_000_000..1_005_120).collect::<Vec<u32>>());
}

#[test]
fn a_shutdown_comes_before_a_tick() {
    let handle = SplitStreamHandle::new(Controls::new(true, false, true));
    let running = handle.panel;
    assert_eq!(next_step(&running, false, true), RunStep::Tick(Controls::new(true, false, true)));
    assert_eq!(next_step(&running, false, false), RunStep::Wait);
    let ended = handle.shutdown();
    for tick_ready in [false, true] {
        assert_eq!(next_step(&ended, false, tick_ready), RunStep::Stop);
        assert_eq!(next_step(&ended, true, tick_ready), RunStep::Stop);
        assert_eq!(next_step(&running, true, tick_ready), RunStep::Stop);
    }
}

#[test]
fn switches_take_effect_on_the_next_tick() {
    let mut handle = SplitStreamHandle::new(Controls::new(false, false, false));
    handle.set_sys_muted(true);
    assert_eq!(
        next_step(&handle.panel, false, true),
        RunStep::Tick(Controls::new(false, true, false))
    );
}
