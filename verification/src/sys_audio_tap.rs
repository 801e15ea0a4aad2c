//! Capture of system audio through a process tap.
//!
//! The tap is part of an aggregate device whose clock is the default microphone.
//! Of the buffers that the device delivers only the last one is system audio; the
//! microphone is captured separately.

use vstd::prelude::*;

verus! {

/// Samples that the ring buffer of the tap holds.
pub const TAP_BUFFER_SIZE: usize = 8192;

/// The layout of one buffer that the device delivers.
#[derive(Debug, Clone, Copy, PartialEq, Eq, Structural)]
pub struct TapBuffer {
    pub number_channels: u32,
    pub data_bytes_size: u32,
    pub is_null: bool,
}

/// What is done with a buffer.
#[derive(Debug, Clone, Copy, PartialEq, Eq, Structural)]
pub enum TapAction {
    /// Nothing.
    Skip,
    /// Average the channels of so many interleaved frames, and store one sample
    /// per frame.
    Mix { frames: usize, channels: usize },
    /// Store so many samples of one channel as they are.
    Store { samples: usize },
}

/// The single-precision samples in a buffer.
pub open spec fn samples_in(buffer: TapBuffer) -> int {
    buffer.data_bytes_size as int / 4
}

/// The frames in a buffer: one sample of every channel each.
pub open spec fn frames_in(buffer: TapBuffer) -> int {
    samples_in(buffer) / buffer.number_channels as int
}

/// The samples that an action stores.
pub open spec fn stored(action: TapAction) -> int {
    match action {
        TapAction::Skip => 0,
        TapAction::Mix { frames, .. } => frames as int,
        TapAction::Store { samples } => samples as int,
    }
}

/// Whether the buffer holds at least one sample of every channel.
pub open spec fn has_frames(buffer: TapBuffer) -> bool {
    &&& buffer.number_channels > 0
    &&& samples_in(buffer) >= buffer.number_channels
    &&& !buffer.is_null
}

/// Decides what is done with the buffer at `index` of `count`. Only the last
/// buffer is stored, as mono samples: one per frame, whatever the channels.
pub fn tap_action(index: usize, count: usize, buffer: TapBuffer) -> (action: TapAction)
    requires
        index < count,
    ensures
        if index + 1 != count || !has_frames(buffer) {
            action == TapAction::Skip
        } else if buffer.number_channels >= 2 {
            action == (TapAction::Mix {
                frames: frames_in(buffer) as usize,
                channels: buffer.number_channels as usize,
            })
        } else {
            action == (TapAction::Store { samples: samples_in(buffer) as usize })
        },
        stored(action) == if index + 1 == count && has_frames(buffer) {
            frames_in(buffer)
        } else {
            0
        },
{
    if index != count - 1 {
        return TapAction::Skip;
    }
    let channels: usize = buffer.number_channels as usize;
    let total: usize = buffer.data_bytes_size as usize / 4;
    let frames: usize = if channels > 0 {
        total / channels
    } else {
        0
    };
    proof {
        if channels > 0 {
            lemma_has_quotient(total as int, channels as int);
            assert(channels == 1 ==> total as int / channels as int == total) by (nonlinear_arith);
        }
    }
    if frames == 0 || buffer.is_null {
        return TapAction::Skip;
    }
    if channels >= 2 {
        TapAction::Mix { frames, channels }
    } else {
        TapAction::Store { samples: total }
    }
}

proof fn lemma_has_quotient(total: int, channels: int)
    requires
        total >= 0,
        channels > 0,
    ensures
        total / channels >= 1 <==> total >= channels,
{
    assert(total / channels >= 1 <==> total >= channels) by (nonlinear_arith)
        requires
            total >= 0,
            channels > 0,
    ;
}

} // verus!
