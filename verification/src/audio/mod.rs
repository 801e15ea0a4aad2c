//! Audio capture and conversion.

pub mod mic_capture;
pub mod resampler;
