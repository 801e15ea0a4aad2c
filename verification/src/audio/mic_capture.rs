//! Microphone capture with mid-stream sample-rate adaptation.
//!
//! When a device changes its sample rate, its stream goes dead. The device is
//! polled once a second, and the stream and its ring buffer are rebuilt when the
//! rate has changed.

use vstd::prelude::*;

verus! {

/// Samples that the ring buffer of the microphone holds.
pub const MIC_BUFFER_SIZE: usize = 8192;

/// The rate to rebuild the stream at, given the rate in use and the rate that the
/// default device reports; `None` if the device cannot be polled or its rate has
/// not changed.
pub fn maybe_rebuild(current_rate: u32, polled_rate: Option<u32>) -> (rate: Option<u32>)
    ensures
        rate == match polled_rate {
            Some(polled) => if polled != current_rate {
                Some(polled)
            } else {
                None
            },
            None => None,
        },
{
    match polled_rate {
        Some(polled) => {
            if polled == current_rate {
                None
            } else {
                Some(polled)
            }
        },
        None => None,
    }
}

} // verus!
