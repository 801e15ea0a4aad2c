//! The WebSocket connection to the transcription service: the authenticated
//! request that opens it, and what is done with the messages on it.

use http::header::AUTHORIZATION;
use tungstenite::client::IntoClientRequest;
use vstd::prelude::*;
use vstd::string::*;
use vstd::utf8::{decode_utf8, encode_utf8, valid_utf8};

verus! {

/// An HTTP request.
#[verifier::external_type_specification]
#[verifier::external_body]
#[verifier::reject_recursive_types(T)]
pub struct ExRequest<T>(http::Request<T>);

/// The value of an HTTP header.
#[verifier::external_type_specification]
#[verifier::external_body]
pub struct ExHeaderValue(http::HeaderValue);

/// The error for text that cannot be a header value.
#[verifier::external_type_specification]
#[verifier::external_body]
pub struct ExInvalidHeaderValue(http::header::InvalidHeaderValue);

/// The error of the WebSocket implementation.
#[verifier::external_type_specification]
#[verifier::external_body]
pub struct ExWebSocketError(tungstenite::Error);

/// The error for bytes that are not UTF-8.
#[verifier::external_type_specification]
#[verifier::external_body]
pub struct ExFromUtf8Error(std::string::FromUtf8Error);

/// The request target and the host that a WebSocket URL stands for; `None` if it
/// is not a URL with a host.
pub uninterp spec fn parsed_url(url: Seq<char>) -> Option<(Seq<char>, Seq<char>)>;

/// The method of a request.
pub uninterp spec fn request_method(request: http::Request<()>) -> Seq<char>;

/// The target of a request, as text.
pub uninterp spec fn request_target(request: http::Request<()>) -> Seq<char>;

/// The headers of a request, by lower-case name.
pub uninterp spec fn request_headers(request: http::Request<()>) -> Map<Seq<char>, Seq<char>>;

/// The text of a header value.
pub uninterp spec fn header_text(value: http::HeaderValue) -> Seq<char>;

/// The headers that open a WebSocket connection to `host`.
pub open spec fn handshake_headers(host: Seq<char>, key: Seq<char>) -> Map<Seq<char>, Seq<char>> {
    Map::empty().insert("host"@, host).insert("connection"@, "Upgrade"@).insert(
        "upgrade"@,
        "websocket"@,
    ).insert("sec-websocket-version"@, "13"@).insert("sec-websocket-key"@, key)
}

/// Whether text can be a header value: no control characters but the tab.
pub open spec fn valid_header(text: Seq<char>) -> bool {
    forall|i: int|
        0 <= i < text.len() ==> {
            let c = #[trigger] text[i] as u32;
            c >= 32 && c != 127 || c == 9
        }
}

/// `IntoClientRequest::into_client_request` of `tungstenite`, on a string: a GET
/// request with the handshake headers for the host of `url` and a random key of 24
/// characters, or an error if `url` cannot be parsed or names no host.
#[verifier::external_body]
fn client_request(url: String) -> (request: Result<http::Request<()>, tungstenite::Error>)
    ensures
        match parsed_url(url@) {
            None => request is Err,
            Some((target, host)) => request matches Ok(r) && request_method(r) == "GET"@
                && request_target(r) == target && exists|key: Seq<char>|
                request_headers(r) == #[trigger] handshake_headers(host, key) && key.len() == 24,
        },
{
    url.into_client_request()
}

/// `HeaderValue::from_str` of `http`: succeeds on text without control characters
/// other than the tab, and keeps the text.
#[verifier::external_body]
fn header_value(text: &str) -> (value: Result<http::HeaderValue, http::header::InvalidHeaderValue>)
    ensures
        value is Ok <==> valid_header(text@),
        value matches Ok(v) ==> header_text(v) == text@,
{
    http::HeaderValue::from_str(text)
}

/// `HeaderMap::insert` of `http`, on the headers of a request and the name
/// `authorization`: sets that header and leaves the others, the method and the
/// target alone. It panics when the map has to grow past 32768 slots, which it
/// never does while the headers fill less than a fifth of them.
#[verifier::external_body]
fn insert_authorization(request: &mut http::Request<()>, value: http::HeaderValue)
    requires
        request_headers(*old(request)).dom().finite(),
        request_headers(*old(request)).dom().len() <= 6553,
    ensures
        request_headers(*final(request)) == request_headers(*old(request)).insert(
            "authorization"@,
            header_text(value),
        ),
        request_method(*final(request)) == request_method(*old(request)),
        request_target(*final(request)) == request_target(*old(request)),
{
    request.headers_mut().insert(AUTHORIZATION, value);
}

/// Decodes UTF-8, as the standard library documents for `String::from_utf8`: an
/// error exactly when the bytes are not valid UTF-8.
pub assume_specification[ String::from_utf8 ](vec: Vec<u8>) -> (text: Result<
    String,
    std::string::FromUtf8Error,
>)
    ensures
        text is Ok <==> valid_utf8(vec@),
        text matches Ok(t) ==> t@ == decode_utf8(vec@),
;

/// Why the opening request could not be built.
#[derive(Debug, Clone, Copy, PartialEq, Eq, Structural)]
pub enum RequestError {
    /// The URL cannot be parsed or names no host.
    InvalidUrl,
    /// The credentials hold control characters.
    InvalidCredentials,
}

/// The value of the authorization header.
pub open spec fn credentials(scheme: Seq<char>, token: Seq<char>) -> Seq<char> {
    scheme + " "@ + token
}

/// Whether `request` opens a connection to `url` with these credentials: a GET
/// request with the handshake headers and the authorization header, and no others.
pub open spec fn opens(request: http::Request<()>, url: Seq<char>, credentials: Seq<char>) -> bool {
    &&& parsed_url(url) matches Some((target, host))
    &&& request_method(request) == "GET"@
    &&& request_target(request) == target
    &&& exists|key: Seq<char>|
        key.len() == 24 && request_headers(request) == #[trigger] handshake_headers(
            host,
            key,
        ).insert("authorization"@, credentials)
}

/// Adds an authorization header to a request.
pub fn authorize(request: http::Request<()>, scheme: &str, token: &str) -> (authorized: Result<
    http::Request<()>,
    RequestError,
>)
    requires
        request_headers(request).dom().finite(),
        request_headers(request).dom().len() <= 6553,
    ensures
        if valid_header(credentials(scheme@, token@)) {
            authorized matches Ok(r) && request_method(r) == request_method(request)
                && request_target(r) == request_target(request)
                && request_headers(r) == request_headers(request).insert(
                "authorization"@,
                credentials(scheme@, token@),
            )
        } else {
            authorized == Err::<http::Request<()>, _>(RequestError::InvalidCredentials)
        },
{
    let mut text = String::from_str(scheme);
    text.append(" ");
    text.append(token);
    match header_value(text.as_str()) {
        Ok(value) => {
            let mut request = request;
            insert_authorization(&mut request, value);
            Ok(request)
        },
        Err(_) => Err(RequestError::InvalidCredentials),
    }
}

/// Builds the request that opens an authenticated connection to `url`.
pub fn authorized_request(url: String, scheme: &str, token: &str) -> (request: Result<
    http::Request<()>,
    RequestError,
>)
    ensures
        if parsed_url(url@) is None {
            request == Err::<http::Request<()>, _>(RequestError::InvalidUrl)
        } else if !valid_header(credentials(scheme@, token@)) {
            request == Err::<http::Request<()>, _>(RequestError::InvalidCredentials)
        } else {
            request matches Ok(r) && opens(r, url@, credentials(scheme@, token@))
        },
{
    match client_request(url) {
        Ok(request) => authorize(request, scheme, token),
        Err(_) => Err(RequestError::InvalidUrl),
    }
}

/// A client of the transcription service.
#[derive(Debug)]
pub struct WebSocketClient {
    access_token: String,  // Bearer token for authentication
    ws_url: String,  // WebSocket URL of the transcription service
}

impl WebSocketClient {
    /// The bearer token.
    pub closed spec fn token(self) -> Seq<char> {
        self.access_token@
    }

    /// The URL of the service.
    pub closed spec fn url(self) -> Seq<char> {
        self.ws_url@
    }

    /// Constructor that saves the access token and WebSocket URL for later use.
    pub fn new(access_token: String, ws_url: String) -> (client: Self)
        ensures
            client.token() == access_token@,
            client.url() == ws_url@,
    {
        Self { access_token, ws_url }
    }

    /// Builds an authenticated WebSocket request with the access token and URL.
    pub fn build_wss_request(&self) -> (request: Result<http::Request<()>, RequestError>)
        ensures
            if parsed_url(self.url()) is None {
                request == Err::<http::Request<()>, _>(RequestError::InvalidUrl)
            } else if !valid_header(credentials("Bearer"@, self.token())) {
                request == Err::<http::Request<()>, _>(RequestError::InvalidCredentials)
            } else {
                request matches Ok(r) && opens(r, self.url(), credentials("Bearer"@, self.token()))
            },
    {
        authorized_request(self.ws_url.clone(), "Bearer", self.access_token.as_str())
    }

    /// The sending side of the connection, which ends without a close message.
    pub fn uplink(&self) -> (uplink: Uplink)
        ensures
            !uplink.closes,
    {
        Uplink { closes: false }
    }
}

/// A message from the service.
#[derive(Debug)]
pub enum Incoming {
    Text(String),
    Binary(Vec<u8>),
    /// The service closes the connection.
    Close,
    /// Pings, pongs and raw frames.
    Other,
    /// Receiving failed.
    Failed,
}

/// What is done with a message from the service.
#[derive(Debug)]
pub enum IncomingAction {
    /// Hand the text on.
    Forward(String),
    Ignore,
    /// Receive no more.
    Stop,
}

/// The text that a message carries, if it is a text message or binary UTF-8.
pub open spec fn carried_text(message: Incoming) -> Option<Seq<char>> {
    match message {
        Incoming::Text(text) => Some(text@),
        Incoming::Binary(bytes) => if valid_utf8(bytes@) {
            Some(decode_utf8(bytes@))
        } else {
            None
        },
        _ => None,
    }
}

/// Decides what is done with a message from the service.
pub fn on_incoming(message: Incoming) -> (action: IncomingAction)
    ensures
        match carried_text(message) {
            Some(text) => action matches IncomingAction::Forward(t) && t@ == text,
            None => if message is Close || message is Failed {
                action is Stop
            } else {
                action is Ignore
            },
        },
{
    match message {
        Incoming::Text(text) => IncomingAction::Forward(text),
        Incoming::Binary(bytes) => match String::from_utf8(bytes) {
            Ok(text) => IncomingAction::Forward(text),
            Err(_) => IncomingAction::Ignore,
        },
        Incoming::Close => IncomingAction::Stop,
        Incoming::Other => IncomingAction::Ignore,
        Incoming::Failed => IncomingAction::Stop,
    }
}

/// What the sending side does next.
#[derive(Debug)]
pub enum Outgoing {
    /// Wait for the next frame.
    Skip,
    /// Send this frame as a binary message.
    Send(Vec<u8>),
    /// Send a close message and end.
    Close,
    /// End without a close message.
    Finish,
    /// Give up: the frame could not be sent.
    Fail,
}

/// The sending side of a connection.
#[derive(Debug, Clone, Copy, PartialEq, Eq, Structural)]
pub struct Uplink {
    /// Whether a close message ends the connection, so that the service does not
    /// time out.
    pub closes: bool,
}

impl Uplink {
    /// Handles the next encoded frame; `None` once no more will come. Empty
    /// frames are not sent.
    pub fn on_frame(&self, frame: Option<Vec<u8>>) -> (next: Outgoing)
        ensures
            match frame {
                Some(bytes) => if bytes@.len() == 0 {
                    next is Skip
                } else {
                    next == Outgoing::Send(bytes)
                },
                None => if self.closes {
                    next is Close
                } else {
                    next is Finish
                },
            },
    {
        match frame {
            Some(bytes) => {
                if bytes.len() == 0 {
                    Outgoing::Skip
                } else {
                    Outgoing::Send(bytes)
                }
            },
            None => {
                if self.closes {
                    Outgoing::Close
                } else {
                    Outgoing::Finish
                }
            },
        }
    }

    /// Handles a frame that could not be sent.
    pub fn on_send_failed(&self) -> (next: Outgoing)
        ensures
            if self.closes {
                next is Close
            } else {
                next is Fail
            },
    {
        if self.closes {
            Outgoing::Close
        } else {
            Outgoing::Fail
        }
    }
}

/// A binary message with the UTF-8 form of a text is handled like a text message
/// with that text.
pub proof fn law_binary_text_is_text(text: String, bytes: Vec<u8>)
    requires
        bytes@ == encode_utf8(text@),
    ensures
        carried_text(Incoming::Binary(bytes)) == carried_text(Incoming::Text(text)),
{
    vstd::utf8::encode_utf8_valid_utf8(text@);
    vstd::utf8::encode_utf8_decode_utf8(text@);
}

/// The authorization header of an opening request holds the credentials, and the
/// handshake headers are as the WebSocket protocol asks.
pub proof fn law_request_is_authorized(
    request: http::Request<()>,
    url: Seq<char>,
    text: Seq<char>,
)
    requires
        opens(request, url, text),
    ensures
        request_method(request) == "GET"@,
        request_headers(request).dom().contains("authorization"@),
        request_headers(request)["authorization"@] == text,
        request_headers(request).dom().contains("upgrade"@),
        request_headers(request)["upgrade"@] == "websocket"@,
        request_headers(request)["connection"@] == "Upgrade"@,
        request_headers(request)["sec-websocket-version"@] == "13"@,
{
    reveal_strlit("authorization");
    reveal_strlit("host");
    reveal_strlit("connection");
    reveal_strlit("upgrade");
    reveal_strlit("sec-websocket-version");
    reveal_strlit("sec-websocket-key");
    assert("authorization"@.len() == 13 && "host"@.len() == 4 && "connection"@.len() == 10
        && "upgrade"@.len() == 7 && "sec-websocket-version"@.len() == 21
        && "sec-websocket-key"@.len() == 17);
}

} // verus!
