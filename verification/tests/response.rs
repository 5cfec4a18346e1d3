use harrow::response::{HeaderMap, IntoResponse, Response};

#[test]
fn text_response_sets_content_type() {
    let resp = Response::text("hi");
    assert_eq!(resp.status_code(), 200);
    assert_eq!(resp.body().as_slice(), b"hi");
    assert_eq!(
        resp.headers().get("Content-Type").unwrap(),
        "text/plain; charset=utf-8"
    );
}

#[test]
fn invalid_status_falls_back_to_ok() {
    assert_eq!(Response::ok().status(404).status_code(), 404);
    assert_eq!(Response::ok().status(99).status_code(), 200);
    assert_eq!(Response::ok().status(1000).status_code(), 200);
    assert_eq!(Response::ok().status(999).status_code(), 999);
}

#[test]
fn headers_are_normalized_and_replaced() {
    let resp = Response::ok()
        .header("X-Custom", "a")
        .header("x-custom", "b")
        .header("bad header", "c")
        .header("x-ok", "bad\nvalue");
    assert_eq!(resp.headers().get("X-CUSTOM").unwrap(), "b");
    assert_eq!(resp.headers().len(), 1);
    assert!(resp.headers().get("x-ok").is_none());
    let (status, headers, body) = resp.into_parts();
    assert_eq!(status, 200);
    assert_eq!(headers, vec![("x-custom".to_string(), "b".to_string())]);
    assert!(body.is_empty());
}

#[test]
fn header_map_insert_and_lookup() {
    let mut headers = HeaderMap::new();
    headers.insert("Host", "example.com");
    assert!(headers.contains_key("host"));
    assert_eq!(headers.get("HOST"), Some("example.com"));
    assert_eq!(headers.get("missing"), None);
    assert_eq!(headers.to_vec(), vec![("host".to_string(), "example.com".to_string())]);
}

#[test]
fn results_into_responses() {
    let ok: Result<Response, Response> = Ok(Response::text("fine"));
    assert_eq!(ok.into_response().status_code(), 200);
    let err: Result<Response, Response> = Err(Response::ok().status(500));
    assert_eq!(err.into_response().status_code(), 500);
}

#[test]
fn setting_a_header_keeps_the_others() {
    let mut headers = HeaderMap::new();
    headers.insert("Accept", "text/html");
    headers.insert("Vary", "origin");
    headers.insert("vary", "accept");
    assert_eq!(headers.get("accept"), Some("text/html"));
    assert_eq!(headers.get("Vary"), Some("accept"));
    assert_eq!(headers.len(), 2);
}

#[test]
fn header_names_follow_the_token_rule() {
    let resp = Response::ok().header("X-Frame-Options", "DENY");
    assert_eq!(resp.headers().get("x-frame-options"), Some("DENY"));
    let mut headers = HeaderMap::new();
    headers.insert("näme", "v");
    headers.insert("", "v");
    headers.insert(&"a".repeat(65536), "v");
    assert_eq!(headers.len(), 0);
    headers.insert(&"A".repeat(65535), "v");
    assert_eq!(headers.get(&"a".repeat(65535)), Some("v"));
    headers.insert("!#$%&'*+-.^_`|~09", "t");
    assert_eq!(headers.get("!#$%&'*+-.^_`|~09"), Some("t"));
}
