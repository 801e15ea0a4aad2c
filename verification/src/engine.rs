//! Core audio routing.
//!
//! Every 20 ms the engine takes what was captured since the last tick, hands one
//! input chunk per source to its resampler, mutes and cancels echo on the
//! resampled frames, and routes them to the active backend. Once a second it
//! compares the observed rate of system audio with the rate in use.
//!
//! Between ticks [`next_step`] decides whether the run goes on. The steps of a tick
//! are, in order: [`Engine::drain`], [`Engine::check_rates`]
//! when due, [`Engine::take_input`] and [`Engine::finish_input`] for each source,
//! [`Engine::mix`], and [`Engine::finish_tick`] with the output of the echo filter
//! if it had to run.

use crate::audio::resampler::{snap_to_standard_rate, FINAL_FRAME_SIZE, OUT_SAMPLE_RATE};
use crate::echo_cancellation::{EchoCanceler, EchoStep};
use crate::handle::{Controls, Panel};
use crate::ring::{
    consumer_capacity, consumer_stream, delivered, smaller, waiting, RingConsumer,
};
use crate::sample::silence;
use crate::transcript::AudioSource;
use vstd::prelude::*;

verus! {

/// Ticks between two rate checks: 50 ticks of 20 ms are one second.
pub const RATE_CHECK_TICKS: u32 = 50;

/// The most samples taken from a ring buffer in one tick.
pub const DRAIN_LIMIT: usize = 4096;

/// The most samples thrown away from a ring buffer before the first tick.
pub const BACKLOG_LIMIT: usize = 8192;

/// Samples per batch for Whisper: half a second.
pub const WHISPER_BATCH_SAMPLES: usize = 8_000;

/// Samples per batch for Parakeet: 160 ms, the chunk size of the model.
pub const PARAKEET_BATCH_SAMPLES: usize = 2_560;

/// How frames reach the backend.
#[derive(Debug, Clone, Copy, PartialEq, Eq, Structural)]
pub enum Routing {
    /// One interleaved stereo frame per tick.
    Deepgram,
    /// Batches of at least [`WHISPER_BATCH_SAMPLES`].
    Whisper,
    /// Batches of exactly [`PARAKEET_BATCH_SAMPLES`].
    Parakeet,
}

/// The resamplers to rebuild after a rate check, with their new input rates.
#[derive(Debug, Clone, Copy, PartialEq, Eq, Structural)]
pub struct RateUpdate {
    pub mic: Option<u32>,
    pub sys: Option<u32>,
}

/// The two resampled frames of a tick.
#[derive(Debug)]
pub struct Frames {
    pub mic: Vec<u32>,
    pub sys: Vec<u32>,
    /// The PCM frames (recorded, rendered) that the echo filter has to run on.
    pub filter: Option<(Vec<i16>, Vec<i16>)>,
}

/// Samples of both sources for a local backend, aligned in time.
#[derive(Debug)]
pub struct Batch {
    pub mic: Vec<u32>,
    pub sys: Vec<u32>,
}

/// What a tick sends to the backend.
#[derive(Debug)]
pub enum Routed {
    /// Stereo samples to encode: microphone on the left, system on the right.
    Stereo(Vec<u32>),
    /// Batches for the inference threads, in order.
    Batches(Vec<Batch>),
}

/// What the engine does next.
#[derive(Debug, Clone, Copy, PartialEq, Eq, Structural)]
pub enum RunStep {
    /// End the run and drop the backend.
    Stop,
    /// Carry out a tick with these switches.
    Tick(Controls),
    /// Wait for the next tick or a change of the panel.
    Wait,
}

/// What the engine does next: it stops once the session was shut down or its
/// handle is gone, whatever else is ready; else it carries out the tick that is
/// ready, with the switches as they are now.
pub open spec fn run_step(panel: Panel, handle_dropped: bool, tick_ready: bool) -> RunStep {
    if panel.shutdown_requested || handle_dropped {
        RunStep::Stop
    } else if tick_ready {
        RunStep::Tick(panel.controls)
    } else {
        RunStep::Wait
    }
}

/// Decides what the engine does next.
pub fn next_step(panel: &Panel, handle_dropped: bool, tick_ready: bool) -> (step: RunStep)
    ensures
        step == run_step(*panel, handle_dropped, tick_ready),
{
    if panel.shutdown_requested || handle_dropped {
        RunStep::Stop
    } else if tick_ready {
        RunStep::Tick(panel.controls)
    } else {
        RunStep::Wait
    }
}

/// The state of an engine between two steps.
#[verifier::ext_equal]
pub struct EngineState {
    pub routing: Routing,
    pub mic_rate: u32,
    pub sys_rate: u32,
    pub mic_input: Seq<u32>,
    pub sys_input: Seq<u32>,
    pub sys_drained: nat,
    pub ticks: nat,
    pub local_mic: Seq<u32>,
    pub local_sys: Seq<u32>,
}

impl EngineState {
    /// Whether the rates have to be checked in this tick.
    pub open spec fn check_due(self) -> bool {
        self.ticks >= RATE_CHECK_TICKS
    }

    /// The input buffer of a source.
    pub open spec fn input(self, source: AudioSource) -> Seq<u32> {
        match source {
            AudioSource::Mic => self.mic_input,
            AudioSource::Sys => self.sys_input,
        }
    }

    /// The state with the input buffer of a source replaced.
    pub open spec fn with_input(self, source: AudioSource, input: Seq<u32>) -> EngineState {
        match source {
            AudioSource::Mic => EngineState { mic_input: input, ..self },
            AudioSource::Sys => EngineState { sys_input: input, ..self },
        }
    }

    /// The state after a tick began with these samples.
    pub open spec fn accepting(self, mic: Seq<u32>, sys: Seq<u32>) -> EngineState {
        EngineState {
            mic_input: self.mic_input + mic,
            sys_input: self.sys_input + sys,
            sys_drained: self.sys_drained + sys.len(),
            ticks: self.ticks + 1,
            ..self
        }
    }

    /// The state after a rate check. A source whose rate changed starts over with
    /// an empty input buffer.
    pub open spec fn checked(self, mic_rebuilt: Option<u32>) -> EngineState {
        let sys_change = sys_rate_change(self);
        EngineState {
            mic_rate: match mic_rebuilt {
                Some(rate) => rate,
                None => self.mic_rate,
            },
            mic_input: match mic_rebuilt {
                Some(_) => Seq::empty(),
                None => self.mic_input,
            },
            sys_rate: match sys_change {
                Some(rate) => rate,
                None => self.sys_rate,
            },
            sys_input: match sys_change {
                Some(_) => Seq::empty(),
                None => self.sys_input,
            },
            sys_drained: 0,
            ticks: 0,
            ..self
        }
    }

    /// What every step keeps: the one-second counters are in step, and the two
    /// sources hold equally much waiting audio, in whole frames and less than a
    /// batch.
    pub open spec fn valid(self) -> bool {
        &&& self.ticks <= RATE_CHECK_TICKS
        &&& self.sys_drained <= self.ticks * DRAIN_LIMIT
        &&& self.local_mic.len() == self.local_sys.len()
        &&& self.local_mic.len() % FINAL_FRAME_SIZE as nat == 0
        &&& match self.routing {
            Routing::Deepgram => self.local_mic.len() == 0,
            Routing::Whisper => self.local_mic.len() < WHISPER_BATCH_SAMPLES,
            Routing::Parakeet => self.local_mic.len() < PARAKEET_BATCH_SAMPLES,
        }
    }
}

/// What a consumer delivered between two moments.
pub open spec fn newly_delivered(before: RingConsumer, after: RingConsumer) -> Seq<u32> {
    delivered(after).skip(delivered(before).len() as int)
}

/// The newest `limit` samples of `input`, or all of it if it is shorter.
pub open spec fn newest(input: Seq<u32>, limit: nat) -> Seq<u32> {
    if input.len() > limit {
        input.skip(input.len() - limit)
    } else {
        input
    }
}

/// The rate that a count of samples drained in one second stands for.
pub open spec fn inferred_rate(drained: nat) -> u32 {
    crate::audio::resampler::nearest_rate(drained as int)
}

/// What a rate check finds for system audio.
pub open spec fn sys_rate_change(state: EngineState) -> Option<u32> {
    if state.sys_drained > 0 && inferred_rate(state.sys_drained) != state.sys_rate {
        Some(inferred_rate(state.sys_drained))
    } else {
        None
    }
}

/// `mic` and `sys` sample by sample, microphone first.
pub open spec fn interleaved(mic: Seq<u32>, sys: Seq<u32>) -> Seq<u32> {
    Seq::new(
        2 * mic.len(),
        |i: int|
            if i % 2 == 0 {
                mic[i / 2]
            } else {
                sys[i / 2]
            },
    )
}

/// The full batches at the front of `waiting`, for one source.
pub open spec fn batches(routing: Routing, waiting: Seq<u32>) -> Seq<Seq<u32>> {
    match routing {
        Routing::Deepgram => Seq::empty(),
        Routing::Whisper => if waiting.len() >= WHISPER_BATCH_SAMPLES {
            seq![waiting]
        } else {
            Seq::empty()
        },
        Routing::Parakeet => Seq::new(
            waiting.len() / PARAKEET_BATCH_SAMPLES as nat,
            |i: int|
                waiting.subrange(i * PARAKEET_BATCH_SAMPLES, (i + 1) * PARAKEET_BATCH_SAMPLES),
        ),
    }
}

/// What is left of `waiting` once its full batches are sent, for one source.
pub open spec fn remainder(routing: Routing, waiting: Seq<u32>) -> Seq<u32> {
    match routing {
        Routing::Deepgram => waiting,
        Routing::Whisper => if waiting.len() >= WHISPER_BATCH_SAMPLES {
            Seq::empty()
        } else {
            waiting
        },
        Routing::Parakeet => waiting.skip(
            (waiting.len() / PARAKEET_BATCH_SAMPLES as nat) * PARAKEET_BATCH_SAMPLES,
        ),
    }
}

/// The resampled frame of a source, or silence if it had too little input.
pub open spec fn frame_or_silence(frame: Option<Vec<u32>>) -> Seq<u32> {
    match frame {
        Some(samples) => samples@,
        None => crate::sample::silent_frame(FINAL_FRAME_SIZE as nat),
    }
}

/// The system frame that leaves a tick: the resampled frame, or silence if muted.
pub open spec fn rendered(sys: Option<Vec<u32>>, controls: Controls) -> Seq<u32> {
    if controls.sys_muted {
        crate::sample::silent_frame(FINAL_FRAME_SIZE as nat)
    } else {
        frame_or_silence(sys)
    }
}

/// The microphone side of a list of batches.
pub open spec fn mic_side(list: Seq<Batch>) -> Seq<Seq<u32>> {
    list.map_values(|b: Batch| b.mic@)
}

/// The system side of a list of batches.
pub open spec fn sys_side(list: Seq<Batch>) -> Seq<Seq<u32>> {
    list.map_values(|b: Batch| b.sys@)
}

/// Whether `routed` is what a pair of frames leads to in `before`, and `after` the
/// state that follows: an interleaved frame for Deepgram, full batches otherwise.
pub open spec fn routes(
    before: EngineState,
    mic: Seq<u32>,
    sys: Seq<u32>,
    routed: Routed,
    after: EngineState,
) -> bool {
    match before.routing {
        Routing::Deepgram => {
            &&& routed matches Routed::Stereo(stereo)
            &&& stereo@ == interleaved(mic, sys)
            &&& after == before
        },
        routing => {
            &&& routed matches Routed::Batches(list)
            &&& mic_side(list@) == batches(routing, before.local_mic + mic)
            &&& sys_side(list@) == batches(routing, before.local_sys + sys)
            &&& after == (EngineState {
                local_mic: remainder(routing, before.local_mic + mic),
                local_sys: remainder(routing, before.local_sys + sys),
                ..before
            })
        },
    }
}

/// Whether `mic` is the microphone frame that leaves a tick: silence if muted,
/// else the output of the echo filter if it ran, else the frame itself.
pub open spec fn is_mic_output(
    frames: Frames,
    filtered: Option<Vec<i16>>,
    mic_muted: bool,
    mic: Seq<u32>,
) -> bool {
    if mic_muted {
        mic == crate::sample::silent_frame(frames.mic@.len())
    } else {
        match filtered {
            Some(pcm) => crate::sample::represents_frame(mic, pcm@),
            None => mic == frames.mic@,
        }
    }
}

/// The audio engine of a session.
#[derive(Debug)]
pub struct Engine {
    routing: Routing,
    mic_sample_rate: u32,
    sys_sample_rate: u32,
    mic_input: Vec<u32>,
    sys_input: Vec<u32>,
    sys_rate_acc: u64,
    rate_ticks: u32,
    local_mic: Vec<u32>,
    local_sys: Vec<u32>,
    aec: EchoCanceler,
}

impl View for Engine {
    type V = EngineState;

    closed spec fn view(&self) -> EngineState {
        EngineState {
            routing: self.routing,
            mic_rate: self.mic_sample_rate,
            sys_rate: self.sys_sample_rate,
            mic_input: self.mic_input@,
            sys_input: self.sys_input@,
            sys_drained: self.sys_rate_acc as nat,
            ticks: self.rate_ticks as nat,
            local_mic: self.local_mic@,
            local_sys: self.local_sys@,
        }
    }
}

impl Engine {
    /// The echo canceler in use.
    pub closed spec fn canceler(self) -> EchoCanceler {
        self.aec
    }

    /// A valid state, and an echo canceler for frames of the engine's size that
    /// leaves frames alone while nothing is rendered.
    pub open spec fn wf(self) -> bool {
        &&& self@.valid()
        &&& self.canceler().parameters().frame_size == FINAL_FRAME_SIZE
        &&& self.canceler().bypasses()
    }

    /// An engine for sources at the given rates, with empty buffers.
    pub fn new(routing: Routing, mic_sample_rate: u32, sys_sample_rate: u32) -> (engine: Self)
        ensures
            engine@ == (EngineState {
                routing,
                mic_rate: mic_sample_rate,
                sys_rate: sys_sample_rate,
                mic_input: Seq::empty(),
                sys_input: Seq::empty(),
                sys_drained: 0,
                ticks: 0,
                local_mic: Seq::empty(),
                local_sys: Seq::empty(),
            }),
            engine.wf(),
    {
        Engine {
            routing,
            mic_sample_rate,
            sys_sample_rate,
            mic_input: Vec::new(),
            sys_input: Vec::new(),
            sys_rate_acc: 0,
            rate_ticks: 0,
            local_mic: Vec::new(),
            local_sys: Vec::new(),
            aec: EchoCanceler::new(),
        }
    }

    /// The input rate of the microphone.
    pub fn mic_sample_rate(&self) -> (rate: u32)
        ensures
            rate == self@.mic_rate,
    {
        self.mic_sample_rate
    }

    /// The input rate of system audio.
    pub fn sys_sample_rate(&self) -> (rate: u32)
        ensures
            rate == self@.sys_rate,
    {
        self.sys_sample_rate
    }

    /// Begins a tick with the samples drained from the ring buffers. Returns
    /// whether the rates have to be checked in this tick.
    pub fn accept_samples(&mut self, mic: &[u32], sys: &[u32]) -> (due: bool)
        requires
            old(self).wf(),
            !old(self)@.check_due(),
            sys@.len() <= DRAIN_LIMIT,
        ensures
            final(self)@ == old(self)@.accepting(mic@, sys@),
            final(self).wf(),
            final(self).canceler() == old(self).canceler(),
            due == final(self)@.check_due(),
    {
        extend(&mut self.mic_input, mic);
        extend(&mut self.sys_input, sys);
        self.sys_rate_acc = self.sys_rate_acc + sys.len() as u64;
        self.rate_ticks = self.rate_ticks + 1;
        self.rate_ticks >= RATE_CHECK_TICKS
    }

    /// Begins a tick with what waits in the ring buffers: of each, all samples or
    /// [`DRAIN_LIMIT`] if there are more. All samples that leave a ring buffer enter
    /// the input buffer of their source.
    pub fn drain(&mut self, mic: &mut RingConsumer, sys: &mut RingConsumer) -> (due: bool)
        requires
            old(self).wf(),
            !old(self)@.check_due(),
        ensures
            ({
                let m = newly_delivered(*old(mic), *final(mic));
                let s = newly_delivered(*old(sys), *final(sys));
                &&& m.len() == smaller(waiting(*old(mic)), DRAIN_LIMIT as nat)
                &&& s.len() == smaller(waiting(*old(sys)), DRAIN_LIMIT as nat)
                &&& delivered(*final(mic)) == delivered(*old(mic)) + m
                &&& delivered(*final(sys)) == delivered(*old(sys)) + s
                &&& final(self)@ == old(self)@.accepting(m, s)
            }),
            delivered(*final(mic)).is_prefix_of(consumer_stream(*final(mic))),
            delivered(*final(sys)).is_prefix_of(consumer_stream(*final(sys))),
            consumer_stream(*final(mic)) == consumer_stream(*old(mic)),
            consumer_stream(*final(sys)) == consumer_stream(*old(sys)),
            consumer_capacity(*final(mic)) == consumer_capacity(*old(mic)),
            consumer_capacity(*final(sys)) == consumer_capacity(*old(sys)),
            final(self).wf(),
            final(self).canceler() == old(self).canceler(),
            due == final(self)@.check_due(),
    {
        let m = mic.drain(DRAIN_LIMIT);
        let s = sys.drain(DRAIN_LIMIT);
        assert(newly_delivered(*old(mic), *mic) =~= m@);
        assert(newly_delivered(*old(sys), *sys) =~= s@);
        self.accept_samples(m.as_slice(), s.as_slice())
    }

    /// Checks the rates once a second. `mic_rebuilt` is the new rate of the
    /// microphone if its stream was rebuilt; system audio is judged by how many
    /// samples were drained. A source whose rate changed starts over with an
    /// empty input buffer.
    pub fn check_rates(&mut self, mic_rebuilt: Option<u32>) -> (update: RateUpdate)
        requires
            old(self).wf(),
            old(self)@.check_due(),
        ensures
            update.mic == mic_rebuilt,
            update.sys == sys_rate_change(old(self)@),
            final(self)@ == old(self)@.checked(mic_rebuilt),
            final(self).wf(),
            final(self).canceler() == old(self).canceler(),
    {
        if let Some(rate) = mic_rebuilt {
            self.mic_sample_rate = rate;
            self.mic_input.clear();
        }
        let mut update = RateUpdate { mic: mic_rebuilt, sys: None };
        if self.sys_rate_acc > 0 {
            assert(self.sys_rate_acc <= RATE_CHECK_TICKS * DRAIN_LIMIT);
            let inferred = snap_to_standard_rate(self.sys_rate_acc as u32);
            if inferred != self.sys_sample_rate {
                self.sys_sample_rate = inferred;
                self.sys_input.clear();
                update.sys = Some(inferred);
            }
        }
        self.sys_rate_acc = 0;
        self.rate_ticks = 0;
        update
    }

    /// Ends a second without a rate check, in a session that keeps the rates it
    /// began with.
    pub fn keep_rates(&mut self)
        requires
            old(self).wf(),
            old(self)@.check_due(),
        ensures
            final(self)@ == (EngineState { sys_drained: 0, ticks: 0, ..old(self)@ }),
            final(self).wf(),
            final(self).canceler() == old(self).canceler(),
    {
        self.sys_rate_acc = 0;
        self.rate_ticks = 0;
    }

    /// Cuts the input buffer of a source to its newest two chunks, to keep
    /// latency from building up, and returns the next chunk of `required`
    /// samples if that many have arrived.
    pub fn take_input(&mut self, source: AudioSource, required: usize) -> (chunk: Option<Vec<u32>>)
        requires
            old(self).wf(),
            2 * required <= usize::MAX,
        ensures
            final(self).wf(),
            final(self)@ == old(self)@.with_input(
                source,
                newest(old(self)@.input(source), (2 * required) as nat),
            ),
            final(self)@.input(source).len() >= required <==> chunk is Some,
            chunk matches Some(samples) ==> samples@ == final(self)@.input(source).take(
                required as int,
            ),
            final(self).canceler() == old(self).canceler(),
    {
        match source {
            AudioSource::Mic => {
                keep_newest(&mut self.mic_input, required * 2);
                front(&self.mic_input, required)
            },
            AudioSource::Sys => {
                keep_newest(&mut self.sys_input, required * 2);
                front(&self.sys_input, required)
            },
        }
    }

    /// Ends resampling of a chunk: its samples leave the input buffer, or the
    /// whole buffer is dropped if the resampler failed.
    pub fn finish_input(&mut self, source: AudioSource, required: usize, resampled: bool)
        requires
            old(self).wf(),
            required <= old(self)@.input(source).len(),
        ensures
            final(self).wf(),
            final(self)@ == old(self)@.with_input(
                source,
                if resampled {
                    old(self)@.input(source).skip(required as int)
                } else {
                    Seq::empty()
                },
            ),
            final(self).canceler() == old(self).canceler(),
    {
        match source {
            AudioSource::Mic => {
                if resampled {
                    drop_front(&mut self.mic_input, required);
                } else {
                    self.mic_input.clear();
                }
            },
            AudioSource::Sys => {
                if resampled {
                    drop_front(&mut self.sys_input, required);
                } else {
                    self.sys_input.clear();
                }
            },
        }
    }

    /// Whether the echo filter has to run on a pair of frames.
    pub open spec fn filters(self, mic: Seq<u32>, sys: Seq<u32>, echo_cancellation: bool) -> bool {
        &&& self@.mic_rate >= OUT_SAMPLE_RATE
        &&& echo_cancellation
        &&& self.canceler().refusal(mic, sys, mic.len()) is None
        &&& !self.canceler().skips(sys)
    }

    /// What the echo filter hears of two resampled frames, recorded and rendered;
    /// `None` if it does not run.
    pub open spec fn filter_input(
        self,
        mic: Option<Vec<u32>>,
        sys: Option<Vec<u32>>,
        controls: Controls,
    ) -> Option<(Seq<i16>, Seq<i16>)> {
        let rec = frame_or_silence(mic);
        let echo = rendered(sys, controls);
        if self.filters(rec, echo, controls.echo_cancellation) {
            Some((crate::sample::quantized_frame(rec), crate::sample::quantized_frame(echo)))
        } else {
            None
        }
    }

    /// Mutes system audio and begins echo cancellation on the resampled frames; a
    /// source that had too little input for a frame is silent. System audio is
    /// muted first, so that the filter gets silence as its reference. A frame that
    /// cannot be cancelled passes through unchanged.
    pub fn mix(
        &mut self,
        mic: Option<Vec<u32>>,
        sys: Option<Vec<u32>>,
        controls: Controls,
    ) -> (frames: Frames)
        requires
            mic matches Some(frame) ==> frame@.len() == FINAL_FRAME_SIZE,
            sys matches Some(frame) ==> frame@.len() == FINAL_FRAME_SIZE,
        ensures
            *final(self) == *old(self),
            frames.mic@ == frame_or_silence(mic),
            frames.sys@ == rendered(sys, controls),
            match old(self).filter_input(mic, sys, controls) {
                Some((rec, echo)) => frames.filter matches Some((r, e)) && r@ == rec && e@ == echo,
                None => frames.filter is None,
            },
    {
        let mic = match mic {
            Some(frame) => frame,
            None => silence(FINAL_FRAME_SIZE),
        };
        let sys = match sys {
            Some(frame) if !controls.sys_muted => frame,
            _ => silence(FINAL_FRAME_SIZE),
        };
        let mut filter: Option<(Vec<i16>, Vec<i16>)> = None;
        if self.mic_sample_rate >= OUT_SAMPLE_RATE && controls.echo_cancellation {
            let capture = mic.clone();
            let render = sys.clone();
            assert(capture@ =~= mic@);
            assert(render@ =~= sys@);
            if let Ok((_, EchoStep::Filter { rec, echo })) = self.aec.cancel_speaker_echo(
                capture,
                render,
            ) {
                filter = Some((rec, echo));
            }
        }
        Frames { mic, sys, filter }
    }

    /// Replaces the microphone frame by the output of the echo filter.
    pub fn apply_filter(&self, frames: &mut Frames, filtered: &[i16])
        requires
            filtered@.len() == old(frames).mic@.len(),
        ensures
            crate::sample::represents_frame(final(frames).mic@, filtered@),
            final(frames).sys == old(frames).sys,
            final(frames).filter is None,
    {
        self.aec.complete(filtered, frames.mic.as_mut_slice());
        frames.filter = None;
    }

    /// Ends a tick: the output of the echo filter, if it had to run, replaces the
    /// microphone frame; then the microphone is muted, so that the filter keeps
    /// hearing the real signal; then both frames go to the backend.
    pub fn finish_tick(
        &mut self,
        frames: Frames,
        filtered: Option<Vec<i16>>,
        controls: Controls,
    ) -> (routed: Routed)
        requires
            old(self).wf(),
            frames.mic@.len() == FINAL_FRAME_SIZE,
            frames.sys@.len() == FINAL_FRAME_SIZE,
            frames.filter is Some <==> filtered is Some,
            filtered matches Some(pcm) ==> pcm@.len() == FINAL_FRAME_SIZE,
        ensures
            final(self).wf(),
            final(self).canceler() == old(self).canceler(),
            exists|mic: Seq<u32>| #[trigger]
                is_mic_output(frames, filtered, controls.mic_muted, mic) && routes(
                    old(self)@,
                    mic,
                    frames.sys@,
                    routed,
                    final(self)@,
                ),
    {
        let mut frames = frames;
        let ghost before = frames;
        if let Some(pcm) = &filtered {
            self.apply_filter(&mut frames, pcm.as_slice());
        }
        frames.mute_mic(controls.mic_muted);
        assert(is_mic_output(before, filtered, controls.mic_muted, frames.mic@));
        self.route(&frames)
    }

    /// Sends the frames of a tick to the backend: interleaved for Deepgram;
    /// otherwise appended to the audio that waits for a batch.
    pub fn route(&mut self, frames: &Frames) -> (routed: Routed)
        requires
            old(self).wf(),
            frames.mic@.len() == FINAL_FRAME_SIZE,
            frames.sys@.len() == FINAL_FRAME_SIZE,
        ensures
            final(self).wf(),
            final(self).canceler() == old(self).canceler(),
            routes(old(self)@, frames.mic@, frames.sys@, routed, final(self)@),
    {
        match self.routing {
            Routing::Deepgram => Routed::Stereo(interleave(&frames.mic, &frames.sys)),
            Routing::Whisper => {
                extend(&mut self.local_mic, frames.mic.as_slice());
                extend(&mut self.local_sys, frames.sys.as_slice());
                let mut list: Vec<Batch> = Vec::new();
                if self.local_mic.len() >= WHISPER_BATCH_SAMPLES {
                    let mic = take_all(&mut self.local_mic);
                    let sys = take_all(&mut self.local_sys);
                    list.push(Batch { mic, sys });
                }
                assert(mic_side(list@) =~= batches(
                    Routing::Whisper,
                    old(self)@.local_mic + frames.mic@,
                ));
                assert(sys_side(list@) =~= batches(
                    Routing::Whisper,
                    old(self)@.local_sys + frames.sys@,
                ));
                Routed::Batches(list)
            },
            Routing::Parakeet => {
                extend(&mut self.local_mic, frames.mic.as_slice());
                extend(&mut self.local_sys, frames.sys.as_slice());
                let list = take_chunks(&mut self.local_mic, &mut self.local_sys);
                Routed::Batches(list)
            },
        }
    }
}

impl Frames {
    /// Mutes the microphone frame. This is done after echo cancellation, so that
    /// the filter keeps hearing the real signal.
    pub fn mute_mic(&mut self, muted: bool)
        ensures
            final(self).mic@ == if muted {
                crate::sample::silent_frame(old(self).mic@.len())
            } else {
                old(self).mic@
            },
            final(self).sys == old(self).sys,
            final(self).filter == old(self).filter,
    {
        if muted {
            self.mic = silence(self.mic.len());
        }
    }
}

/// Throws away the audio that piled up in a ring buffer while the backend was
/// being started: all that waits, or [`BACKLOG_LIMIT`] samples if there are more.
pub fn discard_backlog(consumer: &mut RingConsumer)
    ensures
        newly_delivered(*old(consumer), *final(consumer)).len() == smaller(
            waiting(*old(consumer)),
            BACKLOG_LIMIT as nat,
        ),
        delivered(*final(consumer)) == delivered(*old(consumer)) + newly_delivered(
            *old(consumer),
            *final(consumer),
        ),
        delivered(*final(consumer)).is_prefix_of(consumer_stream(*final(consumer))),
        consumer_stream(*final(consumer)) == consumer_stream(*old(consumer)),
        consumer_capacity(*final(consumer)) == consumer_capacity(*old(consumer)),
{
    let dropped = consumer.drain(BACKLOG_LIMIT);
    assert(newly_delivered(*old(consumer), *consumer) =~= dropped@);
}

/// Drops the oldest samples of `buffer` beyond `limit`.
fn keep_newest(buffer: &mut Vec<u32>, limit: usize)
    ensures
        final(buffer)@ == newest(old(buffer)@, limit as nat),
{
    if buffer.len() > limit {
        let excess: usize = buffer.len() - limit;
        drop_front(buffer, excess);
    }
}

/// Drops the first `n` samples.
fn drop_front(buffer: &mut Vec<u32>, n: usize)
    requires
        n <= old(buffer)@.len(),
    ensures
        final(buffer)@ == old(buffer)@.skip(n as int),
{
    let rest = buffer.split_off(n);
    *buffer = rest;
    assert(buffer@ =~= old(buffer)@.skip(n as int));
}

/// The first `n` samples, if there are that many.
fn front(buffer: &Vec<u32>, n: usize) -> (samples: Option<Vec<u32>>)
    ensures
        buffer@.len() >= n <==> samples is Some,
        samples matches Some(list) ==> list@ == buffer@.take(n as int),
{
    if buffer.len() < n {
        return None;
    }
    let mut list: Vec<u32> = Vec::new();
    let mut i: usize = 0;
    while i < n
        invariant
            i <= n <= buffer@.len(),
            list@ == buffer@.take(i as int),
        decreases n - i,
    {
        list.push(buffer[i]);
        assert(buffer@.take(i + 1) =~= buffer@.take(i as int).push(buffer@[i as int]));
        i += 1;
    }
    Some(list)
}

/// Empties `buffer` and returns what it held.
fn take_all(buffer: &mut Vec<u32>) -> (all: Vec<u32>)
    ensures
        all@ == old(buffer)@,
        final(buffer)@ == Seq::<u32>::empty(),
{
    let mut all: Vec<u32> = Vec::new();
    std::mem::swap(&mut all, buffer);
    all
}

/// Takes the first `n` samples out of `buffer`.
fn take_front(buffer: &mut Vec<u32>, n: usize) -> (samples: Vec<u32>)
    requires
        n <= old(buffer)@.len(),
    ensures
        samples@ == old(buffer)@.take(n as int),
        final(buffer)@ == old(buffer)@.skip(n as int),
{
    let mut rest = buffer.split_off(n);
    std::mem::swap(&mut rest, buffer);
    assert(rest@ =~= old(buffer)@.take(n as int));
    assert(buffer@ =~= old(buffer)@.skip(n as int));
    rest
}

/// Takes all full Parakeet chunks out of the two buffers.
fn take_chunks(mic: &mut Vec<u32>, sys: &mut Vec<u32>) -> (list: Vec<Batch>)
    requires
        old(mic)@.len() == old(sys)@.len(),
    ensures
        mic_side(list@) == batches(Routing::Parakeet, old(mic)@),
        sys_side(list@) == batches(Routing::Parakeet, old(sys)@),
        final(mic)@ == remainder(Routing::Parakeet, old(mic)@),
        final(sys)@ == remainder(Routing::Parakeet, old(sys)@),
{
    let ghost m = mic@;
    let ghost s = sys@;
    let mut list: Vec<Batch> = Vec::new();
    assert(m.skip(0) =~= m);
    assert(s.skip(0) =~= s);
    while mic.len() >= PARAKEET_BATCH_SAMPLES
        invariant
            m.len() == s.len(),
            mic@.len() == sys@.len(),
            list@.len() * PARAKEET_BATCH_SAMPLES <= m.len(),
            mic@ == m.skip(list@.len() * PARAKEET_BATCH_SAMPLES),
            sys@ == s.skip(list@.len() * PARAKEET_BATCH_SAMPLES),
            forall|i: int|
                0 <= i < list@.len() ==> (#[trigger] list@[i]).mic@ == m.subrange(
                    i * PARAKEET_BATCH_SAMPLES,
                    (i + 1) * PARAKEET_BATCH_SAMPLES,
                ) && list@[i].sys@ == s.subrange(
                    i * PARAKEET_BATCH_SAMPLES,
                    (i + 1) * PARAKEET_BATCH_SAMPLES,
                ),
        decreases mic.len(),
    {
        let ghost n = list@.len();
        let mic_chunk = take_front(mic, PARAKEET_BATCH_SAMPLES);
        let sys_chunk = take_front(sys, PARAKEET_BATCH_SAMPLES);
        list.push(Batch { mic: mic_chunk, sys: sys_chunk });
        assert(mic_chunk@ =~= m.subrange(
            n * PARAKEET_BATCH_SAMPLES,
            (n + 1) * PARAKEET_BATCH_SAMPLES,
        ));
        assert(sys_chunk@ =~= s.subrange(
            n * PARAKEET_BATCH_SAMPLES,
            (n + 1) * PARAKEET_BATCH_SAMPLES,
        ));
        assert(mic@ =~= m.skip((n + 1) * PARAKEET_BATCH_SAMPLES));
        assert(sys@ =~= s.skip((n + 1) * PARAKEET_BATCH_SAMPLES));
    }
    assert(list@.len() == m.len() / PARAKEET_BATCH_SAMPLES as nat);
    assert(mic_side(list@) =~= batches(Routing::Parakeet, m));
    assert(sys_side(list@) =~= batches(Routing::Parakeet, s));
    list
}

/// Interleaves two frames of equal length, microphone first.
fn interleave(mic: &Vec<u32>, sys: &Vec<u32>) -> (stereo: Vec<u32>)
    requires
        mic@.len() == sys@.len(),
    ensures
        stereo@ == interleaved(mic@, sys@),
{
    let mut stereo: Vec<u32> = Vec::new();
    let mut i: usize = 0;
    while i < mic.len()
        invariant
            i <= mic@.len() == sys@.len(),
            stereo@.len() == 2 * i,
            forall|j: int|
                0 <= j < 2 * i ==> stereo@[j] == #[trigger] interleaved(mic@, sys@)[j],
        decreases mic.len() - i,
    {
        stereo.push(mic[i]);
        stereo.push(sys[i]);
        i += 1;
    }
    assert(stereo@ =~= interleaved(mic@, sys@));
    stereo
}

/// Appends `more` to `buffer`.
fn extend(buffer: &mut Vec<u32>, more: &[u32])
    ensures
        final(buffer)@ == old(buffer)@ + more@,
{
    buffer.extend_from_slice(more);
    assert(buffer@ =~= old(buffer)@ + more@);
}

} // verus!
