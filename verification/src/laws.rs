//! What holds of the engine across its steps.

pub mod devices;
pub mod inputs;
pub mod parakeet;
pub mod samples;
pub mod service;
pub mod session;
pub mod text;
pub mod tick;
pub mod tools;
pub mod whisper;

use crate::audio::resampler::{FINAL_FRAME_SIZE, OUT_SAMPLE_RATE};
use crate::engine::{
    Engine, EngineState, Routing, PARAKEET_BATCH_SAMPLES, RATE_CHECK_TICKS, WHISPER_BATCH_SAMPLES,
};
use crate::handle::{Controls, Panel};
use crate::sample::joined;
use vstd::prelude::*;

verus! {

/// The batches that a local backend gets for one source when `frames` are routed
/// one after the other, starting with `waiting` samples that were not sent yet.
pub open spec fn sent(routing: Routing, waiting: Seq<u32>, frames: Seq<Seq<u32>>) -> Seq<Seq<u32>>
    decreases frames.len(),
{
    if frames.len() == 0 {
        Seq::empty()
    } else {
        sent(routing, waiting, frames.drop_last()) + crate::engine::batches(
            routing,
            left(routing, waiting, frames.drop_last()) + frames.last(),
        )
    }
}

/// The samples of one source that still wait after `frames` were routed.
pub open spec fn left(routing: Routing, waiting: Seq<u32>, frames: Seq<Seq<u32>>) -> Seq<u32>
    decreases frames.len(),
{
    if frames.len() == 0 {
        waiting
    } else {
        crate::engine::remainder(
            routing,
            left(routing, waiting, frames.drop_last()) + frames.last(),
        )
    }
}

/// The state after a run of ticks in which no rate check was due.
pub open spec fn after_ticks(state: EngineState, drained: Seq<(Seq<u32>, Seq<u32>)>) -> EngineState
    decreases drained.len(),
{
    if drained.len() == 0 {
        state
    } else {
        after_ticks(state, drained.drop_last()).accepting(drained.last().0, drained.last().1)
    }
}

/// Routing one frame loses, repeats and reorders nothing: the batches sent,
/// followed by what still waits, are what waited before, followed by the frame.
pub proof fn law_routing_conserves(routing: Routing, waiting: Seq<u32>)
    ensures
        joined(crate::engine::batches(routing, waiting)) + crate::engine::remainder(
            routing,
            waiting,
        ) == waiting,
{
    match routing {
        Routing::Deepgram => {
            assert(joined(crate::engine::batches(routing, waiting)) + waiting =~= waiting);
        },
        Routing::Whisper => {
            let list = crate::engine::batches(routing, waiting);
            if waiting.len() >= WHISPER_BATCH_SAMPLES {
                assert(joined(list.drop_last()) =~= Seq::empty());
                assert(joined(list) =~= waiting);
            }
            assert(joined(list) + crate::engine::remainder(routing, waiting) =~= waiting);
        },
        Routing::Parakeet => {
            lemma_chunks_joined(waiting, waiting.len() / PARAKEET_BATCH_SAMPLES as nat);
            assert(joined(crate::engine::batches(routing, waiting)) + crate::engine::remainder(
                routing,
                waiting,
            ) =~= waiting);
        },
    }
}

proof fn lemma_chunks_joined(waiting: Seq<u32>, n: nat)
    requires
        n * PARAKEET_BATCH_SAMPLES <= waiting.len(),
    ensures
        joined(
            Seq::new(
                n,
                |i: int|
                    waiting.subrange(
                        i * PARAKEET_BATCH_SAMPLES,
                        (i + 1) * PARAKEET_BATCH_SAMPLES,
                    ),
            ),
        ) == waiting.take(n * PARAKEET_BATCH_SAMPLES),
    decreases n,
{
    let chunk = |i: int|
        waiting.subrange(i * PARAKEET_BATCH_SAMPLES, (i + 1) * PARAKEET_BATCH_SAMPLES);
    let list = Seq::new(n, chunk);
    if n > 0 {
        lemma_chunks_joined(waiting, (n - 1) as nat);
        assert(list.drop_last() =~= Seq::new((n - 1) as nat, chunk));
        assert(joined(list) =~= waiting.take(n * PARAKEET_BATCH_SAMPLES));
    }
}

/// Routing any number of frames loses, repeats and reorders nothing.
pub proof fn law_stream_conserved(routing: Routing, waiting: Seq<u32>, frames: Seq<Seq<u32>>)
    ensures
        joined(sent(routing, waiting, frames)) + left(routing, waiting, frames) == waiting
            + joined(frames),
    decreases frames.len(),
{
    if frames.len() == 0 {
        assert(joined(sent(routing, waiting, frames)) + waiting =~= waiting + joined(frames));
    } else {
        let earlier = frames.drop_last();
        let full = left(routing, waiting, earlier) + frames.last();
        law_stream_conserved(routing, waiting, earlier);
        law_routing_conserves(routing, full);
        crate::sample::lemma_joined_concat(
            sent(routing, waiting, earlier),
            crate::engine::batches(routing, full),
        );
        let a = joined(sent(routing, waiting, earlier));
        let b = joined(crate::engine::batches(routing, full));
        let c = crate::engine::remainder(routing, full);
        assert((a + b) + c =~= a + (b + c));
        assert(a + (left(routing, waiting, earlier) + frames.last()) =~= (a + left(
            routing,
            waiting,
            earlier,
        )) + frames.last());
        assert((waiting + joined(earlier)) + frames.last() =~= waiting + (joined(earlier)
            + frames.last()));
    }
}

/// The two sides of a batch cover the same ticks: frames routed together leave in
/// batches that are equally many, equally long and preceded by equally much audio,
/// and equally much of both still waits.
pub proof fn law_batches_are_aligned(
    routing: Routing,
    mic_waiting: Seq<u32>,
    sys_waiting: Seq<u32>,
    mic: Seq<Seq<u32>>,
    sys: Seq<Seq<u32>>,
)
    requires
        mic_waiting.len() == sys_waiting.len(),
        mic.len() == sys.len(),
        forall|i: int| 0 <= i < mic.len() ==> (#[trigger] mic[i]).len() == sys[i].len(),
    ensures
        sent(routing, mic_waiting, mic).len() == sent(routing, sys_waiting, sys).len(),
        forall|k: int|
            0 <= k < sent(routing, mic_waiting, mic).len() ==> (#[trigger] sent(
                routing,
                mic_waiting,
                mic,
            )[k]).len() == sent(routing, sys_waiting, sys)[k].len(),
        forall|k: int|
            0 <= k <= sent(routing, mic_waiting, mic).len() ==> joined(
                #[trigger] sent(routing, mic_waiting, mic).take(k),
            ).len() == joined(sent(routing, sys_waiting, sys).take(k)).len(),
        left(routing, mic_waiting, mic).len() == left(routing, sys_waiting, sys).len(),
{
    lemma_batches_aligned(routing, mic_waiting, sys_waiting, mic, sys);
    let (m, s) = (sent(routing, mic_waiting, mic), sent(routing, sys_waiting, sys));
    assert forall|k: int| 0 <= k <= m.len() implies joined(#[trigger] m.take(k)).len() == joined(
        s.take(k),
    ).len() by {
        assert forall|i: int| 0 <= i < k implies (#[trigger] m.take(k)[i]).len() == s.take(
            k,
        )[i].len() by {
            assert(m[i].len() == s[i].len());
        }
        lemma_joined_len(m.take(k), s.take(k));
    }
}

proof fn lemma_batches_aligned(
    routing: Routing,
    mic_waiting: Seq<u32>,
    sys_waiting: Seq<u32>,
    mic: Seq<Seq<u32>>,
    sys: Seq<Seq<u32>>,
)
    requires
        mic_waiting.len() == sys_waiting.len(),
        mic.len() == sys.len(),
        forall|i: int| 0 <= i < mic.len() ==> (#[trigger] mic[i]).len() == sys[i].len(),
    ensures
        sent(routing, mic_waiting, mic).len() == sent(routing, sys_waiting, sys).len(),
        forall|k: int|
            0 <= k < sent(routing, mic_waiting, mic).len() ==> (#[trigger] sent(
                routing,
                mic_waiting,
                mic,
            )[k]).len() == sent(routing, sys_waiting, sys)[k].len(),
        left(routing, mic_waiting, mic).len() == left(routing, sys_waiting, sys).len(),
    decreases mic.len(),
{
    if mic.len() > 0 {
        let (m, s) = (mic.drop_last(), sys.drop_last());
        assert forall|i: int| 0 <= i < m.len() implies (#[trigger] m[i]).len() == s[i].len() by {
            assert(mic[i].len() == sys[i].len());
        }
        lemma_batches_aligned(routing, mic_waiting, sys_waiting, m, s);
        assert(mic[mic.len() - 1].len() == sys[sys.len() - 1].len());
        let (a, b) = (sent(routing, mic_waiting, m), sent(routing, sys_waiting, s));
        let x = left(routing, mic_waiting, m) + mic.last();
        let y = left(routing, sys_waiting, s) + sys.last();
        let (p, q) = (crate::engine::batches(routing, x), crate::engine::batches(routing, y));
        assert forall|k: int| 0 <= k < (a + p).len() implies (#[trigger] (a + p)[k]).len() == (b
            + q)[k].len() by {
            if k < a.len() {
                assert(a[k].len() == b[k].len());
            } else {
                assert(p[k - a.len()].len() == q[k - a.len()].len());
            }
        }
    }
}

proof fn lemma_joined_len(a: Seq<Seq<u32>>, b: Seq<Seq<u32>>)
    requires
        a.len() == b.len(),
        forall|i: int| 0 <= i < a.len() ==> (#[trigger] a[i]).len() == b[i].len(),
    ensures
        joined(a).len() == joined(b).len(),
    decreases a.len(),
{
    if a.len() > 0 {
        assert(a[a.len() - 1].len() == b[b.len() - 1].len());
        assert forall|i: int| 0 <= i < a.drop_last().len() implies (#[trigger] a.drop_last()[i]).len()
            == b.drop_last()[i].len() by {
            assert(a[i].len() == b[i].len());
        }
        lemma_joined_len(a.drop_last(), b.drop_last());
    }
}

/// A tick sends at most one batch; a Whisper batch is exactly half a second long
/// and a Parakeet batch exactly one model chunk.
pub proof fn law_batch_sizes(state: EngineState, frame: Seq<u32>)
    requires
        state.valid(),
        frame.len() == FINAL_FRAME_SIZE,
    ensures
        crate::engine::batches(state.routing, state.local_mic + frame).len() <= 1,
        forall|i: int|
            0 <= i < crate::engine::batches(state.routing, state.local_mic + frame).len() ==> (
            #[trigger] crate::engine::batches(state.routing, state.local_mic + frame)[i]).len()
                == match state.routing {
                Routing::Parakeet => PARAKEET_BATCH_SAMPLES,
                _ => WHISPER_BATCH_SAMPLES,
            },
{
}

/// The rates are checked on the fiftieth tick after the last check, and on no
/// earlier one.
pub proof fn law_rate_check_once_a_second(
    state: EngineState,
    drained: Seq<(Seq<u32>, Seq<u32>)>,
)
    requires
        state.ticks == 0,
    ensures
        after_ticks(state, drained).ticks == drained.len(),
        after_ticks(state, drained).check_due() <==> drained.len() >= RATE_CHECK_TICKS,
    decreases drained.len(),
{
    if drained.len() > 0 {
        law_rate_check_once_a_second(state, drained.drop_last());
    }
}

/// Over a second of ticks the engine counts exactly the system samples drained.
pub proof fn law_drained_samples_counted(
    state: EngineState,
    drained: Seq<(Seq<u32>, Seq<u32>)>,
)
    ensures
        after_ticks(state, drained).sys_drained == state.sys_drained + joined(
            drained.map_values(|tick: (Seq<u32>, Seq<u32>)| tick.1),
        ).len(),
    decreases drained.len(),
{
    let sys = drained.map_values(|tick: (Seq<u32>, Seq<u32>)| tick.1);
    if drained.len() > 0 {
        law_drained_samples_counted(state, drained.drop_last());
        assert(sys.drop_last() =~= drained.drop_last().map_values(
            |tick: (Seq<u32>, Seq<u32>)| tick.1,
        ));
    }
}

/// System audio that was drained at a standard rate for a second is run at that
/// rate from then on; there is a rebuild exactly if it was not before.
pub proof fn law_drained_rate_is_adopted(
    state: EngineState,
    rate: u32,
    mic_rebuilt: Option<u32>,
)
    requires
        state.sys_drained == rate,
        crate::audio::resampler::standard_rates().contains(rate),
    ensures
        state.checked(mic_rebuilt).sys_rate == rate,
        crate::engine::sys_rate_change(state) is None <==> state.sys_rate == rate,
{
    crate::audio::resampler::lemma_standard_rate_is_kept(rate);
    crate::audio::resampler::lemma_nearest_rate_unique(
        rate,
        crate::audio::resampler::nearest_rate(rate as int),
        rate as int,
    );
}

/// After a rate change system audio runs at a standard rate.
pub proof fn law_new_rate_is_standard(state: EngineState, rate: u32)
    requires
        crate::engine::sys_rate_change(state) == Some(rate),
    ensures
        crate::audio::resampler::standard_rates().contains(rate),
{
    crate::audio::resampler::lemma_nearest_rate_exists(state.sys_drained as int);
}

/// An input buffer never holds more than two chunks when its chunk is taken, and
/// what it holds is the newest audio.
pub proof fn law_latency_is_bounded(input: Seq<u32>, required: nat)
    ensures
        crate::engine::newest(input, 2 * required).len() <= 2 * required,
        exists|dropped: Seq<u32>|
            input == #[trigger] (dropped + crate::engine::newest(input, 2 * required)),
{
    let kept = crate::engine::newest(input, 2 * required);
    let dropped = input.take(input.len() - kept.len());
    assert(input =~= dropped + kept);
}

/// With system audio muted the echo filter does not run, so the microphone frame
/// passes unchanged.
pub proof fn law_sys_mute_spares_the_filter(
    engine: Engine,
    mic: Seq<u32>,
    echo_cancellation: bool,
)
    requires
        engine.wf(),
    ensures
        !engine.filters(
            mic,
            crate::sample::silent_frame(FINAL_FRAME_SIZE as nat),
            echo_cancellation,
        ),
{
    crate::echo_cancellation::lemma_muted_render_is_silent(FINAL_FRAME_SIZE as nat);
}

/// With echo cancellation on and a microphone of sufficient rate, the filter runs
/// exactly on the frames that are finite and have something rendered.
pub proof fn law_filter_runs_on_audible_render(engine: Engine, mic: Seq<u32>, sys: Seq<u32>)
    requires
        engine.wf(),
        engine@.mic_rate >= OUT_SAMPLE_RATE,
        mic.len() == FINAL_FRAME_SIZE,
        sys.len() == FINAL_FRAME_SIZE,
    ensures
        engine.filters(mic, sys, true) <==> crate::sample::finite_frame(mic)
            && crate::sample::finite_frame(sys) && !crate::echo_cancellation::silent_render(sys),
{
}

/// Muting the microphone changes nothing of what the echo filter hears.
pub proof fn law_mic_mute_spares_the_filter(
    engine: Engine,
    mic: Option<Vec<u32>>,
    sys: Option<Vec<u32>>,
    controls: Controls,
    mic_muted: bool,
)
    ensures
        engine.filter_input(mic, sys, Controls { mic_muted, ..controls }) == engine.filter_input(
            mic,
            sys,
            controls,
        ),
{
}

/// The echo switch has no effect while system audio is muted or the microphone
/// runs below 16 kHz: the filter does not run either way, and both frames leave the
/// tick as they would.
pub proof fn law_echo_switch_without_effect(
    engine: Engine,
    mic: Option<Vec<u32>>,
    sys: Option<Vec<u32>>,
    controls: Controls,
    enabled: bool,
)
    requires
        engine.wf(),
        controls.sys_muted || engine@.mic_rate < OUT_SAMPLE_RATE,
    ensures
        engine.filter_input(mic, sys, controls) is None,
        engine.filter_input(mic, sys, Controls { echo_cancellation: enabled, ..controls }) is None,
        crate::engine::rendered(sys, Controls { echo_cancellation: enabled, ..controls })
            == crate::engine::rendered(sys, controls),
{
    crate::echo_cancellation::lemma_muted_render_is_silent(FINAL_FRAME_SIZE as nat);
}

/// A muted source is silent in the interleaved frame.
pub proof fn law_muted_sources_are_silent(mic: Seq<u32>, sys: Seq<u32>)
    requires
        mic.len() == sys.len(),
    ensures
        mic == crate::sample::silent_frame(mic.len()) ==> forall|i: int|
            0 <= i < mic.len() ==> #[trigger] crate::engine::interleaved(mic, sys)[2 * i]
                == crate::sample::SILENCE,
        sys == crate::sample::silent_frame(sys.len()) ==> forall|i: int|
            0 <= i < sys.len() ==> #[trigger] crate::engine::interleaved(mic, sys)[2 * i + 1]
                == crate::sample::SILENCE,
{
}

/// A session that was shut down does nothing more: its engine stops, also if a
/// tick is ready.
pub proof fn law_shutdown_ends_the_run(
    panel: Panel,
    handle_dropped: bool,
    tick_ready: bool,
)
    ensures
        crate::engine::run_step(panel.shut_down(), handle_dropped, tick_ready)
            == crate::engine::RunStep::Stop,
{
}

/// A session runs on until it is shut down or its handle is gone.
pub proof fn law_run_goes_on(panel: Panel, handle_dropped: bool, tick_ready: bool)
    ensures
        crate::engine::run_step(panel, handle_dropped, tick_ready) is Stop
            <==> panel.shutdown_requested || handle_dropped,
{
}

/// A changed switch takes effect on the next tick.
pub proof fn law_switches_reach_the_next_tick(panel: Panel, controls: Controls)
    requires
        !panel.shutdown_requested,
    ensures
        crate::engine::run_step(panel.with_controls(controls), false, true)
            == crate::engine::RunStep::Tick(controls),
{
}

/// Each source can be read back from an interleaved frame.
pub proof fn law_interleaving_is_reversible(mic: Seq<u32>, sys: Seq<u32>)
    requires
        mic.len() == sys.len(),
    ensures
        crate::engine::interleaved(mic, sys).len() == 2 * mic.len(),
        forall|i: int|
            0 <= i < mic.len() ==> #[trigger] crate::engine::interleaved(mic, sys)[2 * i] == mic[i],
        forall|i: int|
            0 <= i < sys.len() ==> #[trigger] crate::engine::interleaved(mic, sys)[2 * i + 1]
                == sys[i],
{
}

} // verus!
