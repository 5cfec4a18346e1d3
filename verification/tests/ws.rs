use harrow::response::HeaderMap;
use harrow::ws::{accept_key, upgrade_response, validate_upgrade, WsError};

#[test]
fn accept_key_is_deterministic() {
    let key = "dGhlIHNhbXBsZSBub25jZQ==";
    let accept1 = accept_key(key);
    let accept2 = accept_key(key);
    assert_eq!(accept1, accept2);
    // SHA-1 is 20 bytes, 28 characters of base64.
    assert_eq!(accept1.len(), 28);
}

#[test]
fn accept_key_differs_for_different_inputs() {
    let a = accept_key("key1");
    let b = accept_key("key2");
    assert_ne!(a, b);
}

#[test]
fn upgrade_response_has_correct_headers() {
    let key = "dGhlIHNhbXBsZSBub25jZQ==";
    let resp = upgrade_response(key);
    assert_eq!(resp.status_code(), 101);
    assert_eq!(resp.headers().get("upgrade").unwrap(), "websocket");
    assert_eq!(resp.headers().get("connection").unwrap(), "Upgrade");
    assert!(resp.headers().get("sec-websocket-accept").is_some());
    assert_eq!(
        resp.headers().get("sec-websocket-accept").unwrap(),
        accept_key(key).as_str()
    );
}

#[test]
fn accept_key_matches_rfc6455_example() {
    assert_eq!(
        accept_key("dGhlIHNhbXBsZSBub25jZQ=="),
        "s3pPLMBiTxaQ9kYGzzhZRbK+xOo="
    );
}

fn handshake_headers(pairs: &[(&str, &str)]) -> HeaderMap {
    let mut headers = HeaderMap::new();
    for (name, value) in pairs {
        headers.insert(name, value);
    }
    headers
}

#[test]
fn valid_handshake_yields_key() {
    let headers = handshake_headers(&[
        ("Upgrade", "WebSocket"),
        ("Connection", "keep-alive, Upgrade"),
        ("Sec-WebSocket-Key", "abc=="),
        ("Sec-WebSocket-Version", "13"),
    ]);
    assert_eq!(validate_upgrade(&headers), Ok("abc==".to_string()));
}

#[test]
fn handshake_errors_in_order() {
    let missing_upgrade = handshake_headers(&[("Connection", "Upgrade")]);
    assert_eq!(validate_upgrade(&missing_upgrade), Err(WsError::MissingUpgrade));

    let missing_connection = handshake_headers(&[("Upgrade", "websocket")]);
    assert_eq!(validate_upgrade(&missing_connection), Err(WsError::MissingConnection));

    let bad_version = handshake_headers(&[
        ("Upgrade", "websocket"),
        ("Connection", "Upgrade"),
        ("Sec-WebSocket-Key", "k"),
        ("Sec-WebSocket-Version", "8"),
    ]);
    assert_eq!(validate_upgrade(&bad_version), Err(WsError::UnsupportedVersion));

    let missing_key = handshake_headers(&[
        ("Upgrade", "websocket"),
        ("Connection", "Upgrade"),
        ("Sec-WebSocket-Version", "13"),
    ]);
    assert_eq!(validate_upgrade(&missing_key), Err(WsError::MissingKey));
}

#[test]
fn handshake_error_responses_are_400() {
    let resp = WsError::MissingKey.to_response();
    assert_eq!(resp.status_code(), 400);
    assert_eq!(resp.body().as_slice(), b"missing Sec-WebSocket-Key header");
}
