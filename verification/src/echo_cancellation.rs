//! Acoustic echo cancellation: what is checked and converted around the
//! adaptive filter.
//!
//! The filter itself works on 16-bit PCM and keeps a history of the room. A frame
//! that needs it is returned as [`EchoStep::Filter`]; its output is handed back
//! through [`EchoCanceler::complete`].

use crate::sample::{all_finite, all_zero, quantize_frame, samples_of};
use crate::text::decimal_of;
use vstd::prelude::*;
use vstd::string::*;

verus! {

/// Why a frame cannot be processed.
#[derive(Debug, PartialEq, Eq, Structural)]
pub enum EchoCancelError {
    BufferLengthMismatch { rec: usize, echo: usize, out: usize },
    InvalidFrameSize { expected: usize, got: usize },
    NonFiniteInput,
    EmptyFrame,
}

impl EchoCancelError {
    /// The text shown to the user.
    pub open spec fn text(self) -> Seq<char> {
        match self {
            EchoCancelError::BufferLengthMismatch { rec, echo, out } =>
                "buffer length mismatch: rec="@ + crate::text::decimal(rec as nat) + ", echo="@
                    + crate::text::decimal(echo as nat) + ", out="@ + crate::text::decimal(
                    out as nat,
                ),
            EchoCancelError::InvalidFrameSize { expected, got } =>
                "invalid frame size: expected "@ + crate::text::decimal(expected as nat)
                    + ", got "@ + crate::text::decimal(got as nat),
            EchoCancelError::NonFiniteInput => "input contains non-finite values (NaN or Inf)"@,
            EchoCancelError::EmptyFrame => "empty frame"@,
        }
    }

    /// Writes the error for the user.
    pub fn message(&self) -> (message: String)
        ensures
            message@ == self.text(),
    {
        match self {
            EchoCancelError::BufferLengthMismatch { rec, echo, out } => {
                let mut message = String::from_str("buffer length mismatch: rec=");
                message.append(decimal_of(*rec).as_str());
                message.append(", echo=");
                message.append(decimal_of(*echo).as_str());
                message.append(", out=");
                message.append(decimal_of(*out).as_str());
                message
            },
            EchoCancelError::InvalidFrameSize { expected, got } => {
                let mut message = String::from_str("invalid frame size: expected ");
                message.append(decimal_of(*expected).as_str());
                message.append(", got ");
                message.append(decimal_of(*got).as_str());
                message
            },
            EchoCancelError::NonFiniteInput => String::from_str(
                "input contains non-finite values (NaN or Inf)",
            ),
            EchoCancelError::EmptyFrame => String::from_str("empty frame"),
        }
    }
}

/// The parameters that the adaptive filter is made with.
#[derive(Debug, Clone, Copy, PartialEq, Eq, Structural)]
pub struct EchoConfig {
    pub sample_rate: u32,
    pub filter_length: i32,
    pub frame_size: usize,
    pub enable_preprocess: bool,
}

/// What is left to do for a frame that was accepted.
#[derive(Debug)]
pub enum EchoStep {
    /// The render frame is silent; the output is the input, unchanged.
    Bypassed,
    /// The adaptive filter has to run on these PCM frames.
    Filter { rec: Vec<i16>, echo: Vec<i16> },
}

/// Whether a render frame is silent once quantised.
pub open spec fn silent_render(echo: Seq<u32>) -> bool {
    forall|i: int| 0 <= i < echo.len() ==> #[trigger] crate::sample::quantized(echo[i]) == 0
}

/// Checks and converts frames for the adaptive filter.
#[derive(Debug)]
pub struct EchoCanceler {
    config: EchoConfig,
    // Bypass the filter if the render frame is silent (copy input to output)
    bypass_on_silent_render: bool,
}

impl EchoCanceler {
    /// The parameters of the adaptive filter.
    pub closed spec fn parameters(self) -> EchoConfig {
        self.config
    }

    /// Whether silent render frames skip the filter.
    pub closed spec fn bypasses(self) -> bool {
        self.bypass_on_silent_render
    }

    /// The error for these buffers, if they cannot be processed.
    pub open spec fn refusal(self, rec: Seq<u32>, echo: Seq<u32>, out_len: nat) -> Option<
        EchoCancelError,
    > {
        if rec.len() == 0 {
            Some(EchoCancelError::EmptyFrame)
        } else if echo.len() != rec.len() || out_len != rec.len() {
            Some(
                EchoCancelError::BufferLengthMismatch {
                    rec: rec.len() as usize,
                    echo: echo.len() as usize,
                    out: out_len as usize,
                },
            )
        } else if rec.len() != self.parameters().frame_size {
            Some(
                EchoCancelError::InvalidFrameSize {
                    expected: self.parameters().frame_size,
                    got: rec.len() as usize,
                },
            )
        } else if !crate::sample::finite_frame(rec) || !crate::sample::finite_frame(echo) {
            Some(EchoCancelError::NonFiniteInput)
        } else {
            None
        }
    }

    /// Whether an accepted frame skips the filter.
    pub open spec fn skips(self, echo: Seq<u32>) -> bool {
        self.bypasses() && silent_render(echo)
    }

    /// Frames of 20 ms at 16 kHz, a filter of 0.2 s, with noise suppression;
    /// silent render frames are bypassed.
    pub fn new() -> (canceler: Self)
        ensures
            canceler.parameters() == (EchoConfig {
                sample_rate: 16000,
                filter_length: 3200,
                frame_size: 320,
                enable_preprocess: true,
            }),
            canceler.bypasses(),
    {
        EchoCanceler {
            config: EchoConfig {
                sample_rate: 16000,
                filter_length: 3200,
                frame_size: 320,
                enable_preprocess: true,
            },
            bypass_on_silent_render: true,
        }
    }

    /// The parameters to make the adaptive filter with.
    pub fn config(&self) -> (config: EchoConfig)
        ensures
            config == self.parameters(),
    {
        self.config
    }

    /// Checks the buffers and begins echo cancellation of `rec_buffer`, the
    /// recorded frame, against `echo_buffer`, the rendered one. A silent render
    /// frame completes at once: `out_buffer` is a copy of `rec_buffer`.
    pub fn cancel_echo_f32(
        &self,
        rec_buffer: &[u32],
        echo_buffer: &[u32],
        out_buffer: &mut [u32],
    ) -> (step: Result<EchoStep, EchoCancelError>)
        ensures
            match self.refusal(rec_buffer@, echo_buffer@, old(out_buffer)@.len()) {
                Some(error) => step == Err::<EchoStep, _>(error) && final(out_buffer)@ == old(
                    out_buffer,
                )@,
                None => if self.skips(echo_buffer@) {
                    step == Ok::<_, EchoCancelError>(EchoStep::Bypassed) && final(out_buffer)@
                        == rec_buffer@
                } else {
                    step matches Ok(EchoStep::Filter { rec, echo }) && rec@
                        == crate::sample::quantized_frame(rec_buffer@) && echo@
                        == crate::sample::quantized_frame(echo_buffer@) && final(out_buffer)@
                        == old(out_buffer)@
                },
            },
    {
        let rec_len: usize = rec_buffer.len();
        if rec_len == 0 {
            return Err(EchoCancelError::EmptyFrame);
        }
        if echo_buffer.len() != rec_len || out_buffer.len() != rec_len {
            return Err(
                EchoCancelError::BufferLengthMismatch {
                    rec: rec_len,
                    echo: echo_buffer.len(),
                    out: out_buffer.len(),
                },
            );
        }
        let expected: usize = self.config.frame_size;
        if rec_len != expected {
            return Err(EchoCancelError::InvalidFrameSize { expected, got: rec_len });
        }
        if !all_finite(rec_buffer) || !all_finite(echo_buffer) {
            return Err(EchoCancelError::NonFiniteInput);
        }
        let rec = quantize_frame(rec_buffer);
        let echo = quantize_frame(echo_buffer);
        let quiet = all_zero(&echo);
        proof {
            lemma_silent_render(echo_buffer@, echo@);
        }
        if self.bypass_on_silent_render && quiet {
            copy_frame(rec_buffer, out_buffer);
            return Ok(EchoStep::Bypassed);
        }
        Ok(EchoStep::Filter { rec, echo })
    }

    /// Converts the output of the adaptive filter back to samples.
    pub fn complete(&self, filtered: &[i16], out_buffer: &mut [u32])
        requires
            filtered@.len() == old(out_buffer)@.len(),
        ensures
            crate::sample::represents_frame(final(out_buffer)@, filtered@),
    {
        let frame = samples_of(filtered);
        copy_frame(frame.as_slice(), out_buffer);
    }

    /// Begins echo cancellation of a captured frame. The frame returned is the
    /// captured one; after [`EchoStep::Filter`] it is to be completed with the
    /// filter's output.
    pub fn cancel_speaker_echo(&mut self, capture_frame: Vec<u32>, render_frame: Vec<u32>) -> (step:
        Result<(Vec<u32>, EchoStep), EchoCancelError>)
        ensures
            *final(self) == *old(self),
            match old(self).refusal(capture_frame@, render_frame@, capture_frame@.len()) {
                Some(error) => step == Err::<(Vec<u32>, EchoStep), _>(error),
                None => step matches Ok((frame, rest)) && frame@ == capture_frame@ && if old(
                    self,
                ).skips(render_frame@) {
                    rest == EchoStep::Bypassed
                } else {
                    rest matches EchoStep::Filter { rec, echo } && rec@
                        == crate::sample::quantized_frame(capture_frame@) && echo@
                        == crate::sample::quantized_frame(render_frame@)
                },
            },
    {
        let mut frame = capture_frame;
        let rec = frame.clone();
        assert(rec@ =~= frame@);
        let step = self.cancel_echo_f32(
            rec.as_slice(),
            render_frame.as_slice(),
            frame.as_mut_slice(),
        );
        match step {
            Ok(rest) => Ok((frame, rest)),
            Err(error) => Err(error),
        }
    }
}

/// Overwrites `to` with the samples of `from`.
fn copy_frame(from: &[u32], to: &mut [u32])
    requires
        from@.len() == old(to)@.len(),
    ensures
        final(to)@ == from@,
{
    let mut i: usize = 0;
    while i < from.len()
        invariant
            i <= from@.len(),
            to@.len() == from@.len(),
            forall|j: int| 0 <= j < i ==> to@[j] == from@[j],
        decreases from.len() - i,
    {
        to[i] = from[i];
        i += 1;
    }
    assert(to@ =~= from@);
}

/// A frame is silent exactly when all its PCM values are zero.
proof fn lemma_silent_render(echo: Seq<u32>, pcm: Seq<i16>)
    requires
        pcm == crate::sample::quantized_frame(echo),
    ensures
        silent_render(echo) <==> (forall|i: int| 0 <= i < pcm.len() ==> #[trigger] pcm[i] == 0),
{
    assert forall|i: int| 0 <= i < echo.len() implies #[trigger] crate::sample::quantized(echo[i])
        == pcm[i] by {}
    if forall|i: int| 0 <= i < pcm.len() ==> #[trigger] pcm[i] == 0 {
        assert forall|i: int| 0 <= i < echo.len() implies #[trigger] crate::sample::quantized(
            echo[i],
        ) == 0 by {
            assert(pcm[i] == 0);
        }
    }
    if silent_render(echo) {
        assert forall|i: int| 0 <= i < pcm.len() implies #[trigger] pcm[i] == 0 by {
            assert(crate::sample::quantized(echo[i]) == 0);
        }
    }
}

/// A render frame of zero samples is silent.
pub proof fn lemma_muted_render_is_silent(n: nat)
    ensures
        silent_render(crate::sample::silent_frame(n)),
        crate::sample::finite_frame(crate::sample::silent_frame(n)),
{
    crate::sample::lemma_silence_is_zero();
}

} // verus!
