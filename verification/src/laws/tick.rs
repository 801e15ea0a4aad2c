//! What the steps of a tick do, in terms of what is handed in and what comes out.

use crate::engine::{
    discard_backlog, next_step, Batch, Engine, Frames, RateUpdate, Routed, Routing, RunStep,
};
use crate::handle::{Controls, Panel};
use crate::ring::{consumer_capacity, consumer_stream, delivered, waiting, RingConsumer};
use crate::sample::{joined, quantize, represents};
use crate::transcript::AudioSource;
use vstd::prelude::*;

verus! {

/// What routing a pair of frames amounts to, sample by sample.
proof fn lemma_routed_samples(
    before: crate::engine::EngineState,
    mic: Seq<u32>,
    sys: Seq<u32>,
    routed: Routed,
    after: crate::engine::EngineState,
)
    requires
        crate::engine::routes(before, mic, sys, routed, after),
        before.valid(),
        mic.len() == 320,
        sys.len() == 320,
    ensures
        match routed {
            Routed::Stereo(stereo) => {
                &&& before.routing is Deepgram
                &&& stereo@.len() == 640
                &&& forall|i: int| 0 <= i < 320 ==> #[trigger] stereo@[2 * i] == mic[i]
                &&& forall|i: int| 0 <= i < 320 ==> #[trigger] stereo@[2 * i + 1] == sys[i]
                &&& after == before
            },
            Routed::Batches(list) => {
                &&& !(before.routing is Deepgram)
                &&& joined(list@.map_values(|b: Batch| b.mic@)) + after.local_mic
                    == before.local_mic + mic
                &&& joined(list@.map_values(|b: Batch| b.sys@)) + after.local_sys
                    == before.local_sys + sys
                &&& forall|i: int|
                    0 <= i < list@.len() ==> (#[trigger] list@[i]).mic@.len() == if before.routing
                        is Whisper {
                        8000nat
                    } else {
                        2560nat
                    }
                &&& forall|i: int|
                    0 <= i < list@.len() ==> (#[trigger] list@[i]).sys@.len()
                        == list@[i].mic@.len()
                &&& after.local_mic.len() < if before.routing is Whisper {
                    8000nat
                } else {
                    2560nat
                }
                &&& after.local_sys.len() == after.local_mic.len()
                &&& after.routing == before.routing
                &&& after.mic_rate == before.mic_rate
                &&& after.sys_rate == before.sys_rate
                &&& after.mic_input == before.mic_input
                &&& after.sys_input == before.sys_input
                &&& after.sys_drained == before.sys_drained
                &&& after.ticks == before.ticks
            },
        },
{
    match routed {
        Routed::Stereo(stereo) => {
            assert(stereo@ == crate::engine::interleaved(mic, sys));
            assert forall|i: int| 0 <= i < 320 implies #[trigger] stereo@[2 * i] == mic[i] by {
                assert((2 * i) / 2 == i);
            }
            assert forall|i: int| 0 <= i < 320 implies #[trigger] stereo@[2 * i + 1] == sys[i] by {
                assert((2 * i + 1) / 2 == i);
            }
        },
        Routed::Batches(list) => {
            let m = before.local_mic + mic;
            let s = before.local_sys + sys;
            crate::laws::law_routing_conserves(before.routing, m);
            crate::laws::law_routing_conserves(before.routing, s);
            let ms = crate::engine::batches(before.routing, m);
            let ss = crate::engine::batches(before.routing, s);
            assert(list@.map_values(|b: Batch| b.mic@) =~= ms);
            assert(list@.map_values(|b: Batch| b.sys@) =~= ss);
            assert forall|i: int| 0 <= i < list@.len() implies {
                &&& (#[trigger] list@[i]).mic@ == ms[i]
                &&& list@[i].sys@ == ss[i]
            } by {
                assert(crate::engine::mic_side(list@)[i] == list@[i].mic@);
                assert(crate::engine::sys_side(list@)[i] == list@[i].sys@);
            }
        },
    }
}

/// A muted microphone sends nothing but silence, whether or not the echo filter
/// ran: to Deepgram every left sample is zero; to a local backend, of all that was
/// sent or waits, what this tick added is zero.
pub proof fn law_muted_microphone_is_never_sent(
    engine: &mut Engine,
    frames: Frames,
    filtered: Option<Vec<i16>>,
    controls: Controls,
    routed: Routed,
)
    requires
        call_ensures(Engine::finish_tick, (engine, frames, filtered, controls), routed),
        old(engine).wf(),
        frames.mic@.len() == 320,
        frames.sys@.len() == 320,
        filtered matches Some(pcm) ==> pcm@.len() == 320,
        controls.mic_muted,
    ensures
        match routed {
            Routed::Stereo(stereo) => {
                &&& stereo@.len() == 640
                &&& forall|i: int| 0 <= i < 320 ==> #[trigger] stereo@[2 * i] == 0
            },
            Routed::Batches(list) => {
                let out = joined(list@.map_values(|b: Batch| b.mic@)) + final(engine)@.local_mic;
                let n = old(engine)@.local_mic.len();
                &&& out.len() == n + 320
                &&& out.take(n as int) == old(engine)@.local_mic
                &&& forall|i: int| n <= i < n + 320 ==> #[trigger] out[i] == 0
            },
        },
{
    let mic = choose|mic: Seq<u32>| #[trigger]
        crate::engine::is_mic_output(frames, filtered, controls.mic_muted, mic)
            && crate::engine::routes(old(engine)@, mic, frames.sys@, routed, final(engine)@);
    lemma_routed_samples(old(engine)@, mic, frames.sys@, routed, final(engine)@);
    if let Routed::Batches(list) = routed {
        let n = old(engine)@.local_mic.len() as int;
        assert((old(engine)@.local_mic + mic).take(n) =~= old(engine)@.local_mic);
    }
}

/// Audio that is neither muted nor filtered reaches the backend as it is; system
/// audio does so in any case. To Deepgram it goes interleaved, to a local backend
/// at the end of what waits.
pub proof fn law_audio_reaches_the_backend(
    engine: &mut Engine,
    frames: Frames,
    filtered: Option<Vec<i16>>,
    controls: Controls,
    routed: Routed,
)
    requires
        call_ensures(Engine::finish_tick, (engine, frames, filtered, controls), routed),
        old(engine).wf(),
        frames.mic@.len() == 320,
        frames.sys@.len() == 320,
        filtered matches Some(pcm) ==> pcm@.len() == 320,
    ensures
        routed is Stereo <==> old(engine)@.routing is Deepgram,
        match routed {
            Routed::Stereo(stereo) => {
                &&& stereo@.len() == 640
                &&& forall|i: int| 0 <= i < 320 ==> #[trigger] stereo@[2 * i + 1] == frames.sys@[i]
                &&& !controls.mic_muted && filtered is None ==> forall|i: int|
                    0 <= i < 320 ==> #[trigger] stereo@[2 * i] == frames.mic@[i]
                &&& final(engine)@ == old(engine)@
            },
            Routed::Batches(list) => {
                &&& joined(list@.map_values(|b: Batch| b.sys@)) + final(engine)@.local_sys == old(
                    engine,
                )@.local_sys + frames.sys@
                &&& !controls.mic_muted && filtered is None ==> joined(
                    list@.map_values(|b: Batch| b.mic@),
                ) + final(engine)@.local_mic == old(engine)@.local_mic + frames.mic@
                &&& forall|i: int|
                    0 <= i < list@.len() ==> {
                        &&& (#[trigger] list@[i]).mic@.len() == if old(engine)@.routing is Whisper {
                            8000nat
                        } else {
                            2560nat
                        }
                        &&& list@[i].sys@.len() == list@[i].mic@.len()
                    }
                &&& final(engine)@.local_mic.len() < if old(engine)@.routing is Whisper {
                    8000nat
                } else {
                    2560nat
                }
                &&& final(engine)@.local_sys.len() == final(engine)@.local_mic.len()
            },
        },
        final(engine)@.mic_input == old(engine)@.mic_input,
        final(engine)@.sys_input == old(engine)@.sys_input,
        final(engine)@.mic_rate == old(engine)@.mic_rate,
        final(engine)@.sys_rate == old(engine)@.sys_rate,
        final(engine)@.sys_drained == old(engine)@.sys_drained,
        final(engine)@.ticks == old(engine)@.ticks,
        final(engine)@.routing == old(engine)@.routing,
        final(engine).wf(),
{
    let mic = choose|mic: Seq<u32>| #[trigger]
        crate::engine::is_mic_output(frames, filtered, controls.mic_muted, mic)
            && crate::engine::routes(old(engine)@, mic, frames.sys@, routed, final(engine)@);
    lemma_routed_samples(old(engine)@, mic, frames.sys@, routed, final(engine)@);
}

/// The output of the echo filter replaces the microphone frame: what is sent has
/// its values, divided by 32768.
pub proof fn law_filter_output_is_sent(
    engine: &mut Engine,
    frames: Frames,
    pcm: Vec<i16>,
    controls: Controls,
    routed: Routed,
)
    requires
        call_ensures(Engine::finish_tick, (engine, frames, Some(pcm), controls), routed),
        old(engine).wf(),
        frames.mic@.len() == 320,
        frames.sys@.len() == 320,
        pcm@.len() == 320,
        !controls.mic_muted,
    ensures
        match routed {
            Routed::Stereo(stereo) => forall|i: int|
                0 <= i < 320 ==> represents(#[trigger] stereo@[2 * i], pcm@[i] as int),
            Routed::Batches(list) => {
                let out = joined(list@.map_values(|b: Batch| b.mic@)) + final(engine)@.local_mic;
                let n = old(engine)@.local_mic.len();
                &&& out.len() == n + 320
                &&& out.take(n as int) == old(engine)@.local_mic
                &&& forall|i: int|
                    n <= i < n + 320 ==> represents(#[trigger] out[i], pcm@[i - n] as int)
            },
        },
{
    let mic = choose|mic: Seq<u32>| #[trigger]
        crate::engine::is_mic_output(frames, Some(pcm), controls.mic_muted, mic)
            && crate::engine::routes(old(engine)@, mic, frames.sys@, routed, final(engine)@);
    lemma_routed_samples(old(engine)@, mic, frames.sys@, routed, final(engine)@);
    if let Routed::Batches(list) = routed {
        let n = old(engine)@.local_mic.len() as int;
        assert((old(engine)@.local_mic + mic).take(n) =~= old(engine)@.local_mic);
        let out = old(engine)@.local_mic + mic;
        assert forall|i: int| n <= i < n + 320 implies represents(
            #[trigger] out[i],
            pcm@[i - n] as int,
        ) by {
            assert(out[i] == mic[i - n]);
        }
    }
}

/// Whatever the frames hold, routing loses, repeats and reorders nothing of either
/// source: the batches returned, followed by what waits afterwards, are what waited
/// before, followed by the frame.
pub proof fn law_route_conserves_both_sources(
    engine: &mut Engine,
    frames: &Frames,
    routed: Routed,
)
    requires
        call_ensures(Engine::route, (engine, frames), routed),
        old(engine).wf(),
        frames.mic@.len() == 320,
        frames.sys@.len() == 320,
    ensures
        routed is Stereo <==> old(engine)@.routing is Deepgram,
        match routed {
            Routed::Stereo(stereo) => {
                &&& stereo@.len() == 640
                &&& forall|i: int| 0 <= i < 320 ==> #[trigger] stereo@[2 * i] == frames.mic@[i]
                &&& forall|i: int| 0 <= i < 320 ==> #[trigger] stereo@[2 * i + 1] == frames.sys@[i]
                &&& final(engine)@ == old(engine)@
            },
            Routed::Batches(list) => {
                &&& joined(list@.map_values(|b: Batch| b.mic@)) + final(engine)@.local_mic == old(
                    engine,
                )@.local_mic + frames.mic@
                &&& joined(list@.map_values(|b: Batch| b.sys@)) + final(engine)@.local_sys == old(
                    engine,
                )@.local_sys + frames.sys@
            },
        },
{
    lemma_routed_samples(old(engine)@, frames.mic@, frames.sys@, routed, final(engine)@);
}

/// Audio for a local backend is sent as soon as a batch is full and not before:
/// 8000 samples for Whisper, 2560 for Parakeet, equally many of both sources; less
/// than a batch waits.
pub proof fn law_batches_are_sent_when_full(engine: &mut Engine, frames: &Frames, list: Vec<Batch>)
    requires
        call_ensures(Engine::route, (engine, frames), Routed::Batches(list)),
        old(engine).wf(),
        frames.mic@.len() == 320,
        frames.sys@.len() == 320,
    ensures
        forall|i: int|
            0 <= i < list@.len() ==> {
                &&& (#[trigger] list@[i]).mic@.len() == if old(engine)@.routing is Whisper {
                    8000nat
                } else {
                    2560nat
                }
                &&& list@[i].sys@.len() == list@[i].mic@.len()
            },
        final(engine)@.local_mic.len() < if old(engine)@.routing is Whisper {
            8000nat
        } else {
            2560nat
        },
        final(engine)@.local_sys.len() == final(engine)@.local_mic.len(),
{
    lemma_routed_samples(
        old(engine)@,
        frames.mic@,
        frames.sys@,
        Routed::Batches(list),
        final(engine)@,
    );
}

/// Routing touches nothing but the audio that waits for a batch.
pub proof fn law_route_keeps_the_input(engine: &mut Engine, frames: &Frames, routed: Routed)
    requires
        call_ensures(Engine::route, (engine, frames), routed),
        old(engine).wf(),
        frames.mic@.len() == 320,
        frames.sys@.len() == 320,
    ensures
        final(engine)@.mic_input == old(engine)@.mic_input,
        final(engine)@.sys_input == old(engine)@.sys_input,
        final(engine)@.mic_rate == old(engine)@.mic_rate,
        final(engine)@.sys_rate == old(engine)@.sys_rate,
        final(engine)@.sys_drained == old(engine)@.sys_drained,
        final(engine)@.ticks == old(engine)@.ticks,
        final(engine)@.routing == old(engine)@.routing,
{
    lemma_routed_samples(old(engine)@, frames.mic@, frames.sys@, routed, final(engine)@);
}

/// Each resampled frame enters the tick as it is; a missing one is silence. Muted
/// system audio is silence in any case. The engine itself is not changed.
pub proof fn law_mix_keeps_or_silences(
    engine: &mut Engine,
    mic: Option<Vec<u32>>,
    sys: Option<Vec<u32>>,
    controls: Controls,
    frames: Frames,
)
    requires
        call_ensures(Engine::mix, (engine, mic, sys, controls), frames),
        mic matches Some(frame) ==> frame@.len() == 320,
        sys matches Some(frame) ==> frame@.len() == 320,
    ensures
        *final(engine) == *old(engine),
        frames.mic@.len() == 320,
        frames.sys@.len() == 320,
        match mic {
            Some(frame) => frames.mic@ == frame@,
            None => forall|i: int| 0 <= i < 320 ==> #[trigger] frames.mic@[i] == 0,
        },
        controls.sys_muted || sys is None ==> forall|i: int|
            0 <= i < 320 ==> #[trigger] frames.sys@[i] == 0,
        !controls.sys_muted ==> (sys matches Some(frame) ==> frames.sys@ == frame@),
{
}

/// The echo filter runs exactly when echo cancellation is on, the microphone runs
/// at 16 kHz or more, no sample of the two frames is infinite or not a number, and
/// some sample of the system frame has a PCM value other than zero.
pub proof fn law_when_the_filter_runs(
    engine: &mut Engine,
    mic: Option<Vec<u32>>,
    sys: Option<Vec<u32>>,
    controls: Controls,
    frames: Frames,
)
    requires
        call_ensures(Engine::mix, (engine, mic, sys, controls), frames),
        old(engine).wf(),
        mic matches Some(frame) ==> frame@.len() == 320,
        sys matches Some(frame) ==> frame@.len() == 320,
    ensures
        frames.filter is Some <==> {
            &&& controls.echo_cancellation
            &&& old(engine)@.mic_rate >= 16000
            &&& forall|i: int| 0 <= i < 320 ==> (#[trigger] frames.mic@[i] / 0x80_0000) % 0x100 != 255
            &&& forall|i: int| 0 <= i < 320 ==> (#[trigger] frames.sys@[i] / 0x80_0000) % 0x100 != 255
            &&& exists|i: int|
                0 <= i < 320 && crate::sample::quantized(#[trigger] frames.sys@[i]) != 0
        },
{
    let (m, s) = (frames.mic@, frames.sys@);
    assert(crate::sample::finite_frame(m) <==> forall|i: int|
        0 <= i < 320 ==> (#[trigger] m[i] / 0x80_0000) % 0x100 != 255) by {
        if crate::sample::finite_frame(m) {
            assert forall|i: int| 0 <= i < 320 implies (#[trigger] m[i] / 0x80_0000) % 0x100
                != 255 by {
                assert(crate::sample::finite(m[i]));
            }
        }
    }
    assert(crate::sample::finite_frame(s) <==> forall|i: int|
        0 <= i < 320 ==> (#[trigger] s[i] / 0x80_0000) % 0x100 != 255) by {
        if crate::sample::finite_frame(s) {
            assert forall|i: int| 0 <= i < 320 implies (#[trigger] s[i] / 0x80_0000) % 0x100
                != 255 by {
                assert(crate::sample::finite(s[i]));
            }
        }
    }
}

/// The filter hears the PCM values of the two frames, sample by sample, whether or
/// not the microphone is muted.
pub proof fn law_what_the_filter_hears(
    engine: &mut Engine,
    mic: Option<Vec<u32>>,
    sys: Option<Vec<u32>>,
    controls: Controls,
    frames: Frames,
    rec: Vec<i16>,
    echo: Vec<i16>,
)
    requires
        call_ensures(Engine::mix, (engine, mic, sys, controls), frames),
        frames.filter == Some((rec, echo)),
        mic matches Some(frame) ==> frame@.len() == 320,
        sys matches Some(frame) ==> frame@.len() == 320,
    ensures
        rec@.len() == 320,
        echo@.len() == 320,
        forall|i: int, value: i16|
            0 <= i < 320 && #[trigger] call_ensures(quantize, (frames.mic@[i],), value) ==> rec@[i]
                == value,
        forall|i: int, value: i16|
            0 <= i < 320 && #[trigger] call_ensures(quantize, (frames.sys@[i],), value) ==> echo@[i]
                == value,
{
}

/// Two mixes of the same frames that differ in the microphone's mute alone give the
/// same result.
pub proof fn law_mix_ignores_the_mic_mute(
    first: &mut Engine,
    second: &mut Engine,
    mic: Option<Vec<u32>>,
    sys: Option<Vec<u32>>,
    controls: Controls,
    mic_muted: bool,
    frames: Frames,
    other: Frames,
)
    requires
        *old(first) == *old(second),
        call_ensures(Engine::mix, (first, mic, sys, controls), frames),
        call_ensures(Engine::mix, (second, mic, sys, Controls { mic_muted, ..controls }), other),
    ensures
        other.mic@ == frames.mic@,
        other.sys@ == frames.sys@,
        match (frames.filter, other.filter) {
            (Some((rec, echo)), Some((rec2, echo2))) => rec@ == rec2@ && echo@ == echo2@,
            (None, None) => true,
            _ => false,
        },
{
}

/// Samples that were drained are appended to the input of their source; one tick
/// and the system samples are counted; the rates are due on the fiftieth tick.
pub proof fn law_drained_samples_enter_the_engine(
    engine: &mut Engine,
    mic: &[u32],
    sys: &[u32],
    due: bool,
)
    requires
        call_ensures(Engine::accept_samples, (engine, mic, sys), due),
    ensures
        final(engine)@.mic_input == old(engine)@.mic_input + mic@,
        final(engine)@.sys_input == old(engine)@.sys_input + sys@,
        final(engine)@.sys_drained == old(engine)@.sys_drained + sys@.len(),
        final(engine)@.ticks == old(engine)@.ticks + 1,
        due <==> old(engine)@.ticks + 1 >= 50,
        final(engine)@.mic_rate == old(engine)@.mic_rate,
        final(engine)@.sys_rate == old(engine)@.sys_rate,
        final(engine)@.local_mic == old(engine)@.local_mic,
        final(engine)@.local_sys == old(engine)@.local_sys,
        final(engine)@.routing == old(engine)@.routing,
{
}

/// A tick takes from each ring buffer what waits, at most 4096 samples, and appends
/// it to the input of the same source.
pub proof fn law_a_tick_takes_what_was_captured(
    engine: &mut Engine,
    mic: &mut RingConsumer,
    sys: &mut RingConsumer,
    due: bool,
)
    requires
        call_ensures(Engine::drain, (engine, mic, sys), due),
    ensures
        exists|m: Seq<u32>, s: Seq<u32>|
            {
                &&& #[trigger] (delivered(*old(mic)) + m) == delivered(*final(mic))
                &&& #[trigger] (delivered(*old(sys)) + s) == delivered(*final(sys))
                &&& m.len() == if waiting(*old(mic)) < 4096 {
                    waiting(*old(mic))
                } else {
                    4096
                }
                &&& s.len() == if waiting(*old(sys)) < 4096 {
                    waiting(*old(sys))
                } else {
                    4096
                }
                &&& final(engine)@.mic_input == old(engine)@.mic_input + m
                &&& final(engine)@.sys_input == old(engine)@.sys_input + s
                &&& final(engine)@.sys_drained == old(engine)@.sys_drained + s.len()
            },
        final(engine)@.ticks == old(engine)@.ticks + 1,
        due <==> old(engine)@.ticks + 1 >= 50,
        final(engine)@.local_mic == old(engine)@.local_mic,
        final(engine)@.local_sys == old(engine)@.local_sys,
        final(engine)@.mic_rate == old(engine)@.mic_rate,
        final(engine)@.sys_rate == old(engine)@.sys_rate,
        final(engine)@.routing == old(engine)@.routing,
{
    let m = crate::engine::newly_delivered(*old(mic), *final(mic));
    let s = crate::engine::newly_delivered(*old(sys), *final(sys));
    assert(delivered(*old(mic)) + m == delivered(*final(mic)));
    assert(delivered(*old(sys)) + s == delivered(*final(sys)));
}

/// Before the first tick what piled up is thrown away, at most 8192 samples.
pub proof fn law_backlog_is_discarded(consumer: &mut RingConsumer)
    requires
        call_ensures(discard_backlog, (consumer,), ()),
    ensures
        delivered(*final(consumer)).len() == delivered(*old(consumer)).len() + if waiting(
            *old(consumer),
        ) < 8192 {
            waiting(*old(consumer))
        } else {
            8192
        },
{
}

/// The distance of two numbers.
pub open spec fn gap(a: int, b: int) -> int {
    if a < b {
        b - a
    } else {
        a - b
    }
}

/// Whether `rate` is one of the nine standard rates and none of them is closer to
/// `count`.
pub open spec fn closest(rate: u32, count: int) -> bool {
    &&& rate == 8000 || rate == 11025 || rate == 16000 || rate == 22050 || rate == 32000 || rate
        == 44100 || rate == 48000 || rate == 88200 || rate == 96000
    &&& gap(rate as int, count) <= gap(8000, count)
    &&& gap(rate as int, count) <= gap(11025, count)
    &&& gap(rate as int, count) <= gap(16000, count)
    &&& gap(rate as int, count) <= gap(22050, count)
    &&& gap(rate as int, count) <= gap(32000, count)
    &&& gap(rate as int, count) <= gap(44100, count)
    &&& gap(rate as int, count) <= gap(48000, count)
    &&& gap(rate as int, count) <= gap(88200, count)
    &&& gap(rate as int, count) <= gap(96000, count)
}

proof fn lemma_nearest_is_closest(count: int)
    ensures
        closest(crate::audio::resampler::nearest_rate(count), count),
{
    crate::audio::resampler::lemma_nearest_rate_exists(count);
    let rates = crate::audio::resampler::standard_rates();
    assert(rates[0] == 8000 && rates[1] == 11025 && rates[2] == 16000 && rates[3] == 22050
        && rates[4] == 32000 && rates[5] == 44100 && rates[6] == 48000 && rates[7] == 88200
        && rates[8] == 96000);
    assert(rates.contains(8000) && rates.contains(11025) && rates.contains(16000)
        && rates.contains(22050) && rates.contains(32000) && rates.contains(44100)
        && rates.contains(48000) && rates.contains(88200) && rates.contains(96000));
}

/// A rate check leaves system audio at a standard rate that no other is closer to
/// than to the samples counted, if any were; without samples the rate stays.
pub proof fn law_rate_check_finds_the_closest_rate(
    engine: &mut Engine,
    mic_rebuilt: Option<u32>,
    update: RateUpdate,
)
    requires
        call_ensures(Engine::check_rates, (engine, mic_rebuilt), update),
    ensures
        old(engine)@.sys_drained == 0 ==> final(engine)@.sys_rate == old(engine)@.sys_rate,
        old(engine)@.sys_drained > 0 ==> closest(
            final(engine)@.sys_rate,
            old(engine)@.sys_drained as int,
        ),
        update.sys == if final(engine)@.sys_rate == old(engine)@.sys_rate {
            None
        } else {
            Some(final(engine)@.sys_rate)
        },
        update.mic == mic_rebuilt,
{
    lemma_nearest_is_closest(old(engine)@.sys_drained as int);
}

/// A rate check starts both counts over. A source whose rate changed loses its
/// input, the other keeps it; nothing else changes.
pub proof fn law_rate_check_restarts_changed_sources(
    engine: &mut Engine,
    mic_rebuilt: Option<u32>,
    update: RateUpdate,
)
    requires
        call_ensures(Engine::check_rates, (engine, mic_rebuilt), update),
    ensures
        final(engine)@.ticks == 0,
        final(engine)@.sys_drained == 0,
        match mic_rebuilt {
            Some(rate) => final(engine)@.mic_rate == rate && final(engine)@.mic_input.len() == 0,
            None => final(engine)@.mic_rate == old(engine)@.mic_rate && final(engine)@.mic_input
                == old(engine)@.mic_input,
        },
        update.sys is Some ==> final(engine)@.sys_input.len() == 0,
        update.sys is None ==> final(engine)@.sys_input == old(engine)@.sys_input,
        final(engine)@.local_mic == old(engine)@.local_mic,
        final(engine)@.local_sys == old(engine)@.local_sys,
        final(engine)@.routing == old(engine)@.routing,
{
}

/// Keeping the rates starts both counts over and changes nothing else.
pub proof fn law_kept_rates_change_nothing(engine: &mut Engine)
    requires
        call_ensures(Engine::keep_rates, (engine,), ()),
    ensures
        final(engine)@.ticks == 0,
        final(engine)@.sys_drained == 0,
        final(engine)@.mic_rate == old(engine)@.mic_rate,
        final(engine)@.sys_rate == old(engine)@.sys_rate,
        final(engine)@.mic_input == old(engine)@.mic_input,
        final(engine)@.sys_input == old(engine)@.sys_input,
        final(engine)@.local_mic == old(engine)@.local_mic,
        final(engine)@.local_sys == old(engine)@.local_sys,
        final(engine)@.routing == old(engine)@.routing,
{
}

/// The input of a source, before or after a step.
pub open spec fn input_of(engine: Engine, source: AudioSource) -> Seq<u32> {
    if source is Mic {
        engine@.mic_input
    } else {
        engine@.sys_input
    }
}

/// The input of the source that a step was not about.
pub open spec fn input_beside(engine: Engine, source: AudioSource) -> Seq<u32> {
    if source is Mic {
        engine@.sys_input
    } else {
        engine@.mic_input
    }
}

/// Taking a chunk leaves the newest two chunks of the input, or all of it if there
/// is less, and touches no other source. A chunk comes exactly if enough samples
/// have arrived, and it is the oldest that is left.
pub proof fn law_chunks_come_from_the_newest_input(
    engine: &mut Engine,
    source: AudioSource,
    required: usize,
    chunk: Option<Vec<u32>>,
)
    requires
        call_ensures(Engine::take_input, (engine, source, required), chunk),
    ensures
        ({
            let had = input_of(*old(engine), source);
            let kept = input_of(*final(engine), source);
            &&& kept.len() == if had.len() > 2 * required {
                2 * required
            } else {
                had.len() as int
            }
            &&& forall|i: int|
                0 <= i < kept.len() ==> #[trigger] kept[i] == had[had.len() - kept.len() + i]
            &&& chunk is Some <==> had.len() >= required
            &&& chunk matches Some(samples) ==> {
                &&& samples@.len() == required
                &&& forall|i: int| 0 <= i < required ==> #[trigger] samples@[i] == kept[i]
            }
        }),
        input_beside(*final(engine), source) == input_beside(*old(engine), source),
        final(engine)@.ticks == old(engine)@.ticks,
        final(engine)@.sys_drained == old(engine)@.sys_drained,
        final(engine)@.local_mic == old(engine)@.local_mic,
        final(engine)@.local_sys == old(engine)@.local_sys,
{
}

/// A chunk that was resampled leaves the input; a failed one takes the whole input
/// with it. The other source is not touched.
pub proof fn law_finished_chunks_leave_the_input(
    engine: &mut Engine,
    source: AudioSource,
    required: usize,
    resampled: bool,
)
    requires
        call_ensures(Engine::finish_input, (engine, source, required, resampled), ()),
        required <= input_of(*old(engine), source).len(),
    ensures
        resampled ==> input_of(*old(engine), source) == input_of(*old(engine), source).take(
            required as int,
        ) + input_of(*final(engine), source),
        !resampled ==> input_of(*final(engine), source).len() == 0,
        input_beside(*final(engine), source) == input_beside(*old(engine), source),
        final(engine)@.ticks == old(engine)@.ticks,
        final(engine)@.sys_drained == old(engine)@.sys_drained,
        final(engine)@.local_mic == old(engine)@.local_mic,
        final(engine)@.local_sys == old(engine)@.local_sys,
{
    let had = input_of(*old(engine), source);
    assert(had =~= had.take(required as int) + had.skip(required as int));
}

/// A new engine has the rates it is given and holds nothing.
pub proof fn law_new_engine_is_empty(routing: Routing, mic: u32, sys: u32, engine: Engine)
    requires
        call_ensures(Engine::new, (routing, mic, sys), engine),
    ensures
        engine@.routing == routing,
        engine@.mic_rate == mic,
        engine@.sys_rate == sys,
        engine@.mic_input.len() == 0,
        engine@.sys_input.len() == 0,
        engine@.local_mic.len() == 0,
        engine@.local_sys.len() == 0,
        engine@.ticks == 0,
        engine@.sys_drained == 0,
{
}

/// A shutdown or the loss of the handle ends the run whatever else is ready;
/// otherwise a tick that is ready is carried out with the switches of the panel.
pub proof fn law_what_the_engine_does_next(
    panel: Panel,
    handle_dropped: bool,
    tick_ready: bool,
    step: RunStep,
)
    requires
        call_ensures(next_step, (&panel, handle_dropped, tick_ready), step),
    ensures
        step is Stop <==> panel.shutdown_requested || handle_dropped,
        step is Tick <==> tick_ready && !panel.shutdown_requested && !handle_dropped,
        step matches RunStep::Tick(controls) ==> controls.mic_muted == panel.controls.mic_muted
            && controls.sys_muted == panel.controls.sys_muted && controls.echo_cancellation
            == panel.controls.echo_cancellation,
{
}

/// Muting a frame makes every microphone sample zero and leaves system audio alone;
/// not muting leaves both alone.
pub proof fn law_mute_mic(frames: &mut Frames, muted: bool)
    requires
        call_ensures(Frames::mute_mic, (frames, muted), ()),
    ensures
        final(frames).mic@.len() == old(frames).mic@.len(),
        muted ==> forall|i: int|
            0 <= i < old(frames).mic@.len() ==> #[trigger] final(frames).mic@[i] == 0,
        !muted ==> final(frames).mic@ == old(frames).mic@,
        final(frames).sys@ == old(frames).sys@,
        final(frames).filter == old(frames).filter,
{
}

/// Applying the filter's output replaces the microphone frame alone.
pub proof fn law_apply_filter(engine: Engine, frames: &mut Frames, filtered: &[i16])
    requires
        call_ensures(Engine::apply_filter, (&engine, frames, filtered), ()),
    ensures
        final(frames).mic@.len() == filtered@.len(),
        forall|i: int|
            0 <= i < filtered@.len() ==> represents(
                #[trigger] final(frames).mic@[i],
                filtered@[i] as int,
            ),
        final(frames).sys@ == old(frames).sys@,
        final(frames).filter is None,
{
}

/// The engine tells the rates that it works with.
pub proof fn law_rates_are_told(engine: Engine, mic: u32, sys: u32)
    requires
        call_ensures(Engine::mic_sample_rate, (&engine,), mic),
        call_ensures(Engine::sys_sample_rate, (&engine,), sys),
    ensures
        mic == engine@.mic_rate,
        sys == engine@.sys_rate,
{
}

/// A frame is a fiftieth of a second and a rate check comes once a second; a Whisper
/// batch is half a second, a Parakeet batch and a chunk of silence fed to its model
/// are eight frames, and three such chunks end what it has heard.
pub proof fn law_sizes_fit_together()
    ensures
        crate::audio::resampler::OUT_SAMPLE_RATE == 16000,
        crate::audio::resampler::FINAL_FRAME_SIZE * 50 == 16000,
        crate::engine::RATE_CHECK_TICKS == 50,
        crate::engine::WHISPER_BATCH_SAMPLES * 2 == 16000,
        crate::engine::PARAKEET_BATCH_SAMPLES == 8 * 320,
        crate::backends::parakeet::SILENCE_CHUNK_SAMPLES == 8 * 320,
        crate::backends::parakeet::SILENCE_CHUNKS == 3,
        crate::audio::mic_capture::MIC_BUFFER_SIZE == 8192,
        crate::backends::deepgram::OPUS_BITRATE == 32000,
        crate::backends::deepgram::OPUS_PACKET_BYTES == 400,
{
}

/// Every step of a tick leaves an engine that the next step can work on, with the
/// same echo canceller.
pub proof fn law_steps_keep_the_engine_ready(
    a: &mut Engine,
    b: &mut Engine,
    c: &mut Engine,
    d: &mut Engine,
    source: AudioSource,
    required: usize,
    resampled: bool,
    mic_rebuilt: Option<u32>,
    update: RateUpdate,
    chunk: Option<Vec<u32>>,
)
    requires
        call_ensures(Engine::check_rates, (a, mic_rebuilt), update),
        call_ensures(Engine::keep_rates, (b,), ()),
        call_ensures(Engine::take_input, (c, source, required), chunk),
        call_ensures(Engine::finish_input, (d, source, required, resampled), ()),
    ensures
        final(a).wf() && final(a).canceler() == old(a).canceler(),
        final(b).wf() && final(b).canceler() == old(b).canceler(),
        final(c).wf() && final(c).canceler() == old(c).canceler(),
        final(d).wf() && final(d).canceler() == old(d).canceler(),
{
}

/// So do its beginning and its end. Ring buffers hand out what was put in, in order,
/// and keep their size.
pub proof fn law_ticks_keep_the_engine_ready(
    a: &mut Engine,
    b: &mut Engine,
    c: &mut Engine,
    d: &mut Engine,
    mic: &mut RingConsumer,
    sys: &mut RingConsumer,
    mic_samples: &[u32],
    sys_samples: &[u32],
    frames: Frames,
    filtered: Option<Vec<i16>>,
    controls: Controls,
    due: bool,
    due_too: bool,
    routed: Routed,
    routed_too: Routed,
)
    requires
        call_ensures(Engine::drain, (a, mic, sys), due),
        call_ensures(Engine::accept_samples, (b, mic_samples, sys_samples), due_too),
        call_ensures(Engine::finish_tick, (c, frames, filtered, controls), routed),
        call_ensures(Engine::route, (d, &frames), routed_too),
    ensures
        final(a).wf() && final(a).canceler() == old(a).canceler(),
        final(b).wf() && final(b).canceler() == old(b).canceler(),
        final(c).wf() && final(c).canceler() == old(c).canceler(),
        final(d).wf() && final(d).canceler() == old(d).canceler(),
        delivered(*final(mic)).is_prefix_of(consumer_stream(*old(mic))),
        delivered(*final(sys)).is_prefix_of(consumer_stream(*old(sys))),
        consumer_stream(*final(mic)) == consumer_stream(*old(mic)),
        consumer_stream(*final(sys)) == consumer_stream(*old(sys)),
        consumer_capacity(*final(mic)) == consumer_capacity(*old(mic)),
        consumer_capacity(*final(sys)) == consumer_capacity(*old(sys)),
{
}

/// Discarding the backlog keeps the ring buffer and what comes after it.
pub proof fn law_discarding_keeps_the_ring(consumer: &mut RingConsumer)
    requires
        call_ensures(discard_backlog, (consumer,), ()),
    ensures
        delivered(*final(consumer)).is_prefix_of(consumer_stream(*old(consumer))),
        consumer_stream(*final(consumer)) == consumer_stream(*old(consumer)),
        consumer_capacity(*final(consumer)) == consumer_capacity(*old(consumer)),
{
}

} // verus!
