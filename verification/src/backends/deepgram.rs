//! Deepgram streaming transcription.
//!
//! Stereo Opus audio goes to the Deepgram WebSocket API; its answers become
//! transcript events.

use crate::websocket_client::{
    authorized_request, credentials, opens, parsed_url, valid_header, RequestError, Uplink,
};
use vstd::prelude::*;
use vstd::string::*;

verus! {

/// The bit rate of the Opus encoder.
pub const OPUS_BITRATE: i32 = 32_000;

/// The size of the buffer that a frame is encoded into.
pub const OPUS_PACKET_BYTES: usize = 400;

/// The endpoint for stereo Opus audio and a given model.
pub open spec fn endpoint(model: Seq<char>) -> Seq<char> {
    "wss://api.deepgram.com/v1/listen?encoding=opus&sample_rate=16000&channels=2&multichannel=true&model="@
        + model
}

/// Writes the endpoint for a model.
pub fn endpoint_url(model: &str) -> (url: String)
    ensures
        url@ == endpoint(model@),
{
    String::from_str(
        "wss://api.deepgram.com/v1/listen?encoding=opus&sample_rate=16000&channels=2&multichannel=true&model=",
    ).concat(model)
}

/// The sending side of a Deepgram connection, which ends with a close message.
pub fn uplink() -> (uplink: Uplink)
    ensures
        uplink.closes,
{
    Uplink { closes: true }
}

/// Builds the request that opens a connection with a Bearer API key.
pub fn connection_request(api_key: &str, ws_url: String) -> (request: Result<
    http::Request<()>,
    RequestError,
>)
    ensures
        if parsed_url(ws_url@) is None {
            request == Err::<http::Request<()>, _>(RequestError::InvalidUrl)
        } else if !valid_header(credentials("Bearer"@, api_key@)) {
            request == Err::<http::Request<()>, _>(RequestError::InvalidCredentials)
        } else {
            request matches Ok(r) && opens(r, ws_url@, credentials("Bearer"@, api_key@))
        },
{
    authorized_request(ws_url, "Bearer", api_key)
}

} // verus!
