use hyper::header::HeaderValue;
use hyper::HeaderMap;

use sqwerk::error::ConnectionError;
use sqwerk::headers::header_text;
use sqwerk::http::ConnectionRequest;
use sqwerk::packet::PacketSender;
use sqwerk::peer::{get_peer_ip, get_peer_token, identify, Peer};

fn headers_with(name: &'static str, value: &[u8]) -> HeaderMap<HeaderValue> {
    let mut headers = HeaderMap::new();
    headers.insert(name, HeaderValue::from_bytes(value).unwrap());
    headers
}

fn parse(text: &str) -> Option<Vec<u8>> {
    let parts: Option<Vec<u8>> = text.split('.').map(|part| part.parse().ok()).collect();
    parts.filter(|bytes| bytes.len() == 4)
}

fn address(text: &str) -> Vec<u8> {
    parse(text).unwrap()
}

#[test]
fn header_is_found_by_its_name() {
    let headers = headers_with("x-real-ip", b"10.0.0.7");
    assert_eq!(header_text(&headers, "x-real-ip"), Some("10.0.0.7"));
    assert_eq!(header_text(&headers, "x-other"), None);
}

#[test]
fn header_is_stored_in_lower_case() {
    let mut headers: HeaderMap<HeaderValue> = HeaderMap::new();
    headers.insert(
        hyper::header::HeaderName::from_bytes(b"X-Real-IP").unwrap(),
        HeaderValue::from_static("10.0.0.7"),
    );
    assert_eq!(header_text(&headers, "x-real-ip"), Some("10.0.0.7"));
}

#[test]
fn first_of_several_values_counts() {
    let mut headers = headers_with("x-real-ip", b"10.0.0.7");
    headers.append("x-real-ip", HeaderValue::from_static("10.0.0.8"));
    assert_eq!(header_text(&headers, "x-real-ip"), Some("10.0.0.7"));
}

#[test]
fn header_that_is_not_text_is_not_read() {
    let headers = headers_with("x-real-ip", b"\xff\xfe");
    assert_eq!(header_text(&headers, "x-real-ip"), None);
}

#[test]
fn header_may_hold_any_text() {
    let headers = headers_with("x-real-ip", "h\u{e9}".as_bytes());
    assert_eq!(header_text(&headers, "x-real-ip"), Some("h\u{e9}"));
}

#[test]
fn announced_address_is_taken() {
    let headers = headers_with("x-real-ip", b"10.0.0.7");
    assert_eq!(get_peer_ip(&headers, parse, address("127.0.0.1")), address("10.0.0.7"));
    let headers = headers_with("x-real-ip", b"192.168.1.200");
    assert_eq!(get_peer_ip(&headers, parse, address("127.0.0.1")), vec![192, 168, 1, 200]);
}

#[test]
fn fallback_address_is_taken() {
    let fallback = address("127.0.0.1");
    assert_eq!(get_peer_ip(&HeaderMap::new(), parse, fallback.clone()), fallback);
    let headers = headers_with("x-real-ip", b"nowhere");
    assert_eq!(get_peer_ip(&headers, parse, fallback.clone()), fallback);
    let headers = headers_with("x-real-ip", b"\xff");
    assert_eq!(get_peer_ip(&headers, parse, fallback.clone()), fallback);
    let headers = headers_with("x-forwarded-for", b"10.0.0.7");
    assert_eq!(get_peer_ip(&headers, parse, fallback.clone()), fallback);
}

#[test]
fn token_comes_from_the_key() {
    let headers = headers_with("sec-websocket-key", b"AQAAAAAAAAAAAAAAAAAAAA==");
    assert!(matches!(get_peer_token(&headers), Ok(1)));
}

#[test]
fn missing_key_is_reported() {
    assert!(matches!(
        get_peer_token(&HeaderMap::new()),
        Err(ConnectionError::MissingSecWebSocketKey)
    ));
    let headers = headers_with("sec-websocket-key", b"\xff");
    assert!(matches!(get_peer_token(&headers), Err(ConnectionError::MissingSecWebSocketKey)));
}

#[test]
fn key_that_is_no_token_is_reported() {
    let headers = headers_with("sec-websocket-key", b"short");
    assert!(matches!(get_peer_token(&headers), Err(ConnectionError::InvalidValue)));
}

#[test]
fn server_reads_the_token_that_the_client_sends() {
    for token in [0u128, 42, u128::MAX] {
        let request = ConnectionRequest::with_token("ws://localhost:9000/", token);
        let request = request.into_client_request().ok().unwrap();
        let mut headers = HeaderMap::new();
        for (name, value) in &request.headers {
            headers.append(
                hyper::header::HeaderName::from_bytes(name.as_bytes()).unwrap(),
                HeaderValue::from_str(value).unwrap(),
            );
        }
        assert!(matches!(get_peer_token(&headers), Ok(read) if read == token));
    }
}

#[test]
fn peer_is_identified() {
    let mut headers = headers_with("sec-websocket-key", b"AQAAAAAAAAAAAAAAAAAAAA==");
    headers.insert("x-real-ip", HeaderValue::from_static("10.0.0.7"));
    let identity = identify(&headers, parse, address("127.0.0.1")).ok().unwrap();
    assert_eq!(identity.ip, address("10.0.0.7"));
    assert_eq!(identity.token, 1);
    let (peer, mut connection): (Peer<Vec<u8>, u32>, _) = identity.into_peer();
    assert_eq!(peer.ip, address("10.0.0.7"));
    assert_eq!(peer.token, 1);
    assert!(!peer.rx.is_closed());
    let sender: PacketSender<u32> = peer.tx;
    assert!(sender.ping().is_ok());
    assert!(matches!(connection.out_r.try_recv(), Ok(Ok(_))));
}

#[test]
fn peer_without_a_token_is_refused() {
    let headers = headers_with("x-real-ip", b"10.0.0.7");
    assert!(matches!(
        identify(&headers, parse, address("127.0.0.1")),
        Err(ConnectionError::MissingSecWebSocketKey)
    ));
}
