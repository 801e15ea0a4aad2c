use splitstream::backends::deepgram::{connection_request, endpoint_url, uplink};
use splitstream::websocket_client::{
    authorize, authorized_request, on_incoming, Incoming, IncomingAction, Outgoing, RequestError,
    WebSocketClient,
};

fn header<'a>(request: &'a http::Request<()>, name: &str) -> &'a str {
    request.headers()[name].to_str().unwrap()
}

#[test]
fn request_carries_a_bearer_token() {
    let client = WebSocketClient::new("SECRET".to_string(), "wss://example.com/listen?a=b".to_string());
    let request = client.build_wss_request().unwrap();
    assert_eq!(request.uri().to_string(), "wss://example.com/listen?a=b");
    assert_eq!(header(&request, "authorization"), "Bearer SECRET");
    assert_eq!(header(&request, "host"), "example.com");
    assert_eq!(header(&request, "connection"), "Upgrade");
    assert_eq!(header(&request, "upgrade"), "websocket");
    assert_eq!(header(&request, "sec-websocket-version"), "13");
    assert!(!header(&request, "sec-websocket-key").is_empty());
    assert_eq!(request.headers().len(), 6);
}

#[test]
fn deepgram_request_carries_a_bearer_api_key() {
    let request = connection_request("abc", endpoint_url("nova-3")).unwrap();
    assert_eq!(header(&request, "authorization"), "Bearer abc");
    assert_eq!(header(&request, "host"), "api.deepgram.com");
    assert_eq!(
        request.uri().to_string(),
        "wss://api.deepgram.com/v1/listen?encoding=opus&sample_rate=16000&channels=2&multichannel=true&model=nova-3"
    );
}

#[test]
fn unusable_requests_are_refused() {
    for url in ["", "not a url", "/path/only"] {
        assert_eq!(
            authorized_request(url.to_string(), "Bearer", "t").unwrap_err(),
            RequestError::InvalidUrl
        );
    }
    assert_eq!(
        authorized_request("wss://example.com".to_string(), "Bearer", "line\nbreak").unwrap_err(),
        RequestError::InvalidCredentials
    );
    assert_eq!(
        connection_request("\u{7f}", endpoint_url("nova-3")).unwrap_err(),
        RequestError::InvalidCredentials
    );
    assert!(authorized_request("wss://example.com".to_string(), "Bearer", "tab\tand ü").is_ok());
}

#[test]
fn authorization_replaces_an_older_one() {
    let request = authorized_request("wss://example.com/x".to_string(), "Bearer", "old").unwrap();
    let request = authorize(request, "Token", "new").unwrap();
    assert_eq!(header(&request, "authorization"), "Token new");
    assert_eq!(request.headers().len(), 6);
    assert_eq!(request.uri().to_string(), "wss://example.com/x");
}

#[test]
fn text_is_forwarded() {
    let action = on_incoming(Incoming::Text("{}".to_string()));
    assert!(matches!(action, IncomingAction::Forward(text) if text == "{}"));
    let action = on_incoming(Incoming::Binary("héllo".as_bytes().to_vec()));
    assert!(matches!(action, IncomingAction::Forward(text) if text == "héllo"));
}

#[test]
fn other_messages_are_ignored_or_end_the_connection() {
    assert!(matches!(on_incoming(Incoming::Binary(vec![0xff, 0xfe])), IncomingAction::Ignore));
    assert!(matches!(on_incoming(Incoming::Other), IncomingAction::Ignore));
    assert!(matches!(on_incoming(Incoming::Close), IncomingAction::Stop));
    assert!(matches!(on_incoming(Incoming::Failed), IncomingAction::Stop));
}

#[test]
fn empty_frames_are_not_sent() {
    let uplink = uplink();
    assert!(matches!(uplink.on_frame(Some(vec![])), Outgoing::Skip));
    assert!(matches!(uplink.on_frame(Some(vec![1, 2])), Outgoing::Send(bytes) if bytes == [1, 2]));
}

#[test]
fn deepgram_connections_end_with_a_close_message() {
    assert!(matches!(uplink().on_frame(None), Outgoing::Close));
    assert!(matches!(uplink().on_send_failed(), Outgoing::Close));
    let client = WebSocketClient::new(String::new(), String::new());
    assert!(matches!(client.uplink().on_frame(None), Outgoing::Finish));
    assert!(matches!(client.uplink().on_send_failed(), Outgoing::Fail));
}
