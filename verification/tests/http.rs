use sqwerk::error::ConnectionError;
use sqwerk::http::{host_of, ConnectionRequest};

fn pairs(headers: &[(String, String)]) -> Vec<(&str, &str)> {
    headers.iter().map(|(name, value)| (name.as_str(), value.as_str())).collect()
}

#[test]
fn request_asks_for_a_websocket() {
    let request = ConnectionRequest::with_token("ws://example.com:9000/chat", 1);
    let request = request.into_client_request().ok().unwrap();
    assert_eq!(request.method, "GET");
    assert_eq!(request.uri, "ws://example.com:9000/chat");
    assert_eq!(
        pairs(&request.headers),
        vec![
            ("Host", "example.com:9000"),
            ("Connection", "Upgrade"),
            ("Upgrade", "websocket"),
            ("Sec-WebSocket-Version", "13"),
            ("Sec-WebSocket-Key", "AQAAAAAAAAAAAAAAAAAAAA=="),
        ]
    );
}

#[test]
fn credentials_are_left_out_of_the_host() {
    let request = ConnectionRequest::with_token("ws://user:secret@example.com/", 0);
    let request = request.into_client_request().ok().unwrap();
    assert_eq!(pairs(&request.headers)[0], ("Host", "example.com"));
}

#[test]
fn host_follows_the_first_at_sign() {
    assert_eq!(host_of("example.com"), "example.com");
    assert_eq!(host_of("user@example.com:80"), "example.com:80");
    assert_eq!(host_of("a@b@c"), "b@c");
    assert_eq!(host_of("user@"), "");
    assert_eq!(host_of(""), "");
    assert_eq!(host_of("\u{fc}ser@host"), "host");
}

#[test]
fn address_that_is_no_uri_is_refused() {
    for url in ["", "ws://exa mple.com/", "ws://user@/", "ws://h\u{e9}.com/"] {
        let request = ConnectionRequest::with_token(url, 0);
        assert!(matches!(request.into_client_request(), Err(ConnectionError::InvalidUri)));
    }
}

#[test]
fn address_without_an_authority_is_refused() {
    let request = ConnectionRequest::with_token("/chat", 0);
    assert!(matches!(request.into_client_request(), Err(ConnectionError::NoHostName)));
}

#[test]
fn empty_host_is_refused() {
    let request = ConnectionRequest::with_token("ws://user@/", 0);
    assert!(matches!(
        request.request_to(Some(Some(String::from("user@")))),
        Err(ConnectionError::EmptyHostName)
    ));
    assert!(matches!(request.request_to(Some(None)), Err(ConnectionError::NoHostName)));
    assert!(matches!(request.request_to(None), Err(ConnectionError::InvalidUri)));
}

#[test]
fn every_connection_has_its_own_token() {
    let first = ConnectionRequest::new("ws://example.com/").into_client_request().ok().unwrap();
    let second = ConnectionRequest::new("ws://example.com/").into_client_request().ok().unwrap();
    assert_eq!(first.uri, "ws://example.com/");
    assert_ne!(first.headers[4].1, second.headers[4].1);
}

#[test]
fn address_may_be_anything_that_can_be_written() {
    let request = ConnectionRequest::new(&String::from("ws://example.com/"));
    assert_eq!(request.into_client_request().ok().unwrap().uri, "ws://example.com/");
}
