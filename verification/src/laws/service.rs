//! What goes to and comes from the transcription service.

use crate::backends::deepgram::{connection_request, endpoint_url, uplink};
use crate::transcript::{AudioSource, Transcript};
use crate::transcript_msg::TranscriptMessage;
use crate::websocket_client::{
    authorize, authorized_request, on_incoming, parsed_url, request_headers, request_method, request_target,
    Incoming, IncomingAction, Outgoing, RequestError, Uplink, WebSocketClient,
};
use vstd::prelude::*;
use vstd::string::*;
use vstd::utf8::{decode_utf8, valid_utf8};

verus! {

/// A result leads to an event exactly if its first alternative has text and its
/// first channel index is 0 or 1, be it interim or final; the event has that text,
/// the source of that channel, and says whether the result is final.
pub proof fn law_results_become_events(message: TranscriptMessage, event: Option<Transcript>)
    requires
        call_ensures(TranscriptMessage::event, (&message,), event),
    ensures
        event is Some <==> {
            &&& message.msg_type@ == "Results"@
            &&& message.channel matches Some(channel) && channel.alternatives@.len() > 0
                && channel.alternatives@[0].transcript@.len() > 0
            &&& message.channel_index matches Some(index) && index@.len() > 0 && index@[0] <= 1
        },
        event matches Some(t) ==> {
            &&& t.text@ == message.channel->0.alternatives@[0].transcript@
            &&& t.source == if message.channel_index->0@[0] == 0 {
                AudioSource::Mic
            } else {
                AudioSource::Sys
            }
            &&& t.is_final == message.is_final
        },
{
}

/// Messages that differ in nothing but whether they are final lead to events that
/// differ in nothing but that, or both lead to none.
pub proof fn law_interim_results_are_handed_on(
    interim: TranscriptMessage,
    committed: TranscriptMessage,
    first: Option<Transcript>,
    second: Option<Transcript>,
)
    requires
        interim.msg_type@ == committed.msg_type@,
        interim.channel_index == committed.channel_index,
        interim.channel == committed.channel,
        !interim.is_final,
        committed.is_final,
        call_ensures(TranscriptMessage::event, (&interim,), first),
        call_ensures(TranscriptMessage::event, (&committed,), second),
    ensures
        match (first, second) {
            (Some(a), Some(b)) => a.text@ == b.text@ && a.source == b.source && !a.is_final
                && b.is_final,
            (None, None) => true,
            _ => false,
        },
{
}

/// The text of a message is that of its first alternative, its channel number the
/// first entry of its channel index.
pub proof fn law_first_entries_count(
    message: TranscriptMessage,
    text: Option<&str>,
    number: Option<u32>,
)
    requires
        call_ensures(TranscriptMessage::transcript, (&message,), text),
        call_ensures(TranscriptMessage::channel_num, (&message,), number),
    ensures
        text is Some <==> message.channel is Some && message.channel->0.alternatives@.len() > 0,
        text matches Some(found) ==> found@ == message.channel->0.alternatives@[0].transcript@,
        number is Some <==> message.channel_index is Some && message.channel_index->0@.len() > 0,
        number matches Some(n) ==> n == message.channel_index->0@[0],
{
}

/// Whether a text has a control character other than the tab.
pub open spec fn has_control_character(text: Seq<char>) -> bool {
    exists|i: int|
        {
            &&& 0 <= i < text.len()
            &&& ((#[trigger] text[i]) as u32) < 32 && text[i] as u32 != 9 || text[i] as u32 == 127
        }
}

/// Whether a request opens a WebSocket connection to `url` with this value of the
/// authorization header.
pub open spec fn opens_with(request: http::Request<()>, url: Seq<char>, value: Seq<char>) -> bool {
    let headers = request_headers(request);
    &&& parsed_url(url) matches Some((target, host))
    &&& request_method(request) == "GET"@
    &&& request_target(request) == target
    &&& headers.dom().contains("authorization"@) && headers["authorization"@] == value
    &&& headers.dom().contains("host"@) && headers["host"@] == host
    &&& headers.dom().contains("upgrade"@) && headers["upgrade"@] == "websocket"@
    &&& headers.dom().contains("connection"@) && headers["connection"@] == "Upgrade"@
    &&& headers.dom().contains("sec-websocket-version"@) && headers["sec-websocket-version"@]
        == "13"@
    &&& headers.dom().contains("sec-websocket-key"@)
}

proof fn lemma_opens_with(request: http::Request<()>, url: Seq<char>, value: Seq<char>)
    requires
        crate::websocket_client::opens(request, url, value),
    ensures
        opens_with(request, url, value),
{
    reveal_strlit("authorization");
    reveal_strlit("host");
    reveal_strlit("connection");
    reveal_strlit("upgrade");
    reveal_strlit("sec-websocket-version");
    reveal_strlit("sec-websocket-key");
    assert("authorization"@.len() == 13 && "host"@.len() == 4 && "connection"@.len() == 10
        && "upgrade"@.len() == 7 && "sec-websocket-version"@.len() == 21
        && "sec-websocket-key"@.len() == 17);
}

proof fn lemma_valid_header(text: Seq<char>)
    ensures
        crate::websocket_client::valid_header(text) <==> !has_control_character(text),
{
    if !crate::websocket_client::valid_header(text) {
        let i = choose|i: int|
            0 <= i < text.len() && !{
                let c = #[trigger] text[i] as u32;
                c >= 32 && c != 127 || c == 9
            };
        assert((text[i] as u32) < 32 && text[i] as u32 != 9 || text[i] as u32 == 127);
    }
}

/// A request is built exactly if the URL can be parsed and the credentials have no
/// control character; it carries the scheme, a space and the token.
pub proof fn law_requests_carry_their_credentials(
    url: String,
    scheme: &str,
    token: &str,
    request: Result<http::Request<()>, RequestError>,
)
    requires
        call_ensures(authorized_request, (url, scheme, token), request),
    ensures
        match request {
            Ok(r) => opens_with(r, url@, scheme@ + " "@ + token@) && !has_control_character(
                scheme@ + " "@ + token@,
            ),
            Err(RequestError::InvalidUrl) => parsed_url(url@) is None,
            Err(RequestError::InvalidCredentials) => parsed_url(url@) is Some
                && has_control_character(scheme@ + " "@ + token@),
        },
{
    lemma_valid_header(scheme@ + " "@ + token@);
    if let Ok(r) = request {
        lemma_opens_with(r, url@, scheme@ + " "@ + token@);
    }
}

/// A Deepgram request carries "Bearer", a space and the API key.
pub proof fn law_deepgram_gets_a_bearer_key(
    api_key: &str,
    ws_url: String,
    request: Result<http::Request<()>, RequestError>,
)
    requires
        call_ensures(connection_request, (api_key, ws_url), request),
    ensures
        match request {
            Ok(r) => opens_with(r, ws_url@, "Bearer "@ + api_key@) && !has_control_character(
                "Bearer "@ + api_key@,
            ),
            Err(RequestError::InvalidUrl) => parsed_url(ws_url@) is None,
            Err(RequestError::InvalidCredentials) => parsed_url(ws_url@) is Some
                && has_control_character("Bearer "@ + api_key@),
        },
{
    lemma_bearer(api_key@);
    lemma_valid_header("Bearer "@ + api_key@);
    if let Ok(r) = request {
        lemma_opens_with(r, ws_url@, "Bearer "@ + api_key@);
    }
}

proof fn lemma_bearer(token: Seq<char>)
    ensures
        crate::websocket_client::credentials("Bearer"@, token) == "Bearer "@ + token,
{
    reveal_strlit("Bearer");
    reveal_strlit(" ");
    reveal_strlit("Bearer ");
    assert("Bearer"@ + " "@ =~= "Bearer "@);
}

/// A client's request goes to its URL and carries "Bearer", a space and its token.
pub proof fn law_clients_send_a_bearer_token(
    access_token: String,
    ws_url: String,
    client: WebSocketClient,
    request: Result<http::Request<()>, RequestError>,
)
    requires
        call_ensures(WebSocketClient::new, (access_token, ws_url), client),
        call_ensures(WebSocketClient::build_wss_request, (&client,), request),
    ensures
        match request {
            Ok(r) => opens_with(r, ws_url@, "Bearer "@ + access_token@) && !has_control_character(
                "Bearer "@ + access_token@,
            ),
            Err(RequestError::InvalidUrl) => parsed_url(ws_url@) is None,
            Err(RequestError::InvalidCredentials) => parsed_url(ws_url@) is Some
                && has_control_character("Bearer "@ + access_token@),
        },
{
    lemma_bearer(access_token@);
    lemma_valid_header("Bearer "@ + access_token@);
    if let Ok(r) = request {
        lemma_opens_with(r, ws_url@, "Bearer "@ + access_token@);
    }
}

/// The endpoint asks for stereo Opus at 16 kHz, each channel on its own, and ends
/// with the model.
pub proof fn law_endpoint_ends_with_the_model(model: &str, url: String)
    requires
        call_ensures(endpoint_url, (model,), url),
    ensures
        url@
            == "wss://api.deepgram.com/v1/listen?encoding=opus&sample_rate=16000&channels=2&multichannel=true&model="@
            + model@,
{
}

/// A text message is handed on as it is, a binary one if it is UTF-8; a closed or
/// failed connection is left; anything else is ignored.
pub proof fn law_what_is_done_with_messages(message: Incoming, action: IncomingAction)
    requires
        call_ensures(on_incoming, (message,), action),
    ensures
        match message {
            Incoming::Text(text) => action matches IncomingAction::Forward(t) && t@ == text@,
            Incoming::Binary(bytes) => if valid_utf8(bytes@) {
                action matches IncomingAction::Forward(t) && t@ == decode_utf8(bytes@)
            } else {
                action is Ignore
            },
            Incoming::Close => action is Stop,
            Incoming::Failed => action is Stop,
            Incoming::Other => action is Ignore,
        },
{
}

/// Every frame with anything in it is sent, unchanged; an empty one is not. At the
/// end, or when sending fails, a connection that closes sends a close message.
pub proof fn law_every_frame_is_sent(
    uplink: Uplink,
    frame: Option<Vec<u8>>,
    next: Outgoing,
    failed: Outgoing,
)
    requires
        call_ensures(Uplink::on_frame, (&uplink, frame), next),
        call_ensures(Uplink::on_send_failed, (&uplink,), failed),
    ensures
        match frame {
            Some(bytes) => if bytes@.len() > 0 {
                next matches Outgoing::Send(sent) && sent@ == bytes@
            } else {
                next is Skip
            },
            None => if uplink.closes {
                next is Close
            } else {
                next is Finish
            },
        },
        failed is Close <==> uplink.closes,
        failed is Fail <==> !uplink.closes,
{
}

/// Deepgram's connection ends with a close message, a client's does not.
pub proof fn law_who_closes(deepgram: Uplink, client: WebSocketClient, other: Uplink)
    requires
        call_ensures(uplink, (), deepgram),
        call_ensures(WebSocketClient::uplink, (&client,), other),
    ensures
        deepgram.closes,
        !other.closes,
{
}

/// Authorizing a request adds scheme and token, separated by a space, and changes
/// nothing else; it fails exactly if they hold a control character.
pub proof fn law_authorizing(
    request: http::Request<()>,
    scheme: &str,
    token: &str,
    authorized: Result<http::Request<()>, RequestError>,
)
    requires
        call_ensures(authorize, (request, scheme, token), authorized),
    ensures
        authorized is Err <==> has_control_character(scheme@ + " "@ + token@),
        match authorized {
            Err(error) => error == RequestError::InvalidCredentials,
            Ok(r) => {
                &&& request_method(r) == request_method(request)
                &&& request_target(r) == request_target(request)
                &&& request_headers(r).dom().contains("authorization"@)
                &&& request_headers(r)["authorization"@] == scheme@ + " "@ + token@
                &&& forall|name: Seq<char>|
                    name != "authorization"@ ==> request_headers(r).dom().contains(name)
                        == request_headers(request).dom().contains(name)
                        && #[trigger] request_headers(r)[name] == request_headers(request)[name]
            },
        },
{
    let text = scheme@ + " "@ + token@;
    if !crate::websocket_client::valid_header(text) {
        let i = choose|i: int|
            0 <= i < text.len() && !({
                let c = #[trigger] text[i] as u32;
                c >= 32 && c != 127 || c == 9
            });
        assert(has_control_character(text));
    }
}

} // verus!
