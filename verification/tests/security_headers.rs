use harrow::response::Response;
use harrow::security_headers::{security_headers_middleware, SecurityHeadersConfig};

fn ok_response() -> Response {
    Response::text("ok")
}

#[test]
fn default_policy_sets_conservative_headers() {
    let mw = security_headers_middleware(SecurityHeadersConfig::default());
    let resp = mw.apply(ok_response());

    assert_eq!(resp.headers().get("x-content-type-options").unwrap(), "nosniff");
    assert_eq!(resp.headers().get("x-frame-options").unwrap(), "DENY");
    assert_eq!(resp.headers().get("referrer-policy").unwrap(), "no-referrer");
    assert!(resp.headers().get("permissions-policy").is_some());
    assert!(resp.headers().get("content-security-policy").is_none());
    assert!(resp.headers().get("strict-transport-security").is_none());
}

#[test]
fn optional_policy_headers_can_be_enabled() {
    let mw = security_headers_middleware(
        SecurityHeadersConfig::default()
            .content_security_policy("default-src 'self'")
            .strict_transport_security("max-age=31536000; includeSubDomains"),
    );
    let resp = mw.apply(ok_response());

    assert_eq!(
        resp.headers().get("content-security-policy").unwrap(),
        "default-src 'self'"
    );
    assert_eq!(
        resp.headers().get("strict-transport-security").unwrap(),
        "max-age=31536000; includeSubDomains"
    );
}

#[test]
fn existing_headers_are_preserved_by_default() {
    let mw = security_headers_middleware(SecurityHeadersConfig::default());
    let resp = mw.apply(Response::text("ok").header("x-frame-options", "SAMEORIGIN"));

    assert_eq!(resp.headers().get("x-frame-options").unwrap(), "SAMEORIGIN");
}

#[test]
fn existing_headers_can_be_overridden() {
    let mw = security_headers_middleware(SecurityHeadersConfig::default().override_existing(true));
    let resp = mw.apply(Response::text("ok").header("x-frame-options", "SAMEORIGIN"));

    assert_eq!(resp.headers().get("x-frame-options").unwrap(), "DENY");
}

#[test]
fn headers_can_be_disabled() {
    let mw = security_headers_middleware(
        SecurityHeadersConfig::default()
            .without_frame_options()
            .without_permissions_policy(),
    );
    let resp = mw.apply(ok_response());

    assert!(resp.headers().get("x-frame-options").is_none());
    assert!(resp.headers().get("permissions-policy").is_none());
    assert!(resp.headers().get("x-content-type-options").is_some());
}

#[test]
fn security_headers_keep_status_and_body() {
    let mw = security_headers_middleware(SecurityHeadersConfig::new());
    let resp = mw.apply(Response::text("hello").status(404));
    assert_eq!(resp.status_code(), 404);
    assert_eq!(resp.body().as_slice(), b"hello");
    assert_eq!(
        resp.headers().get("content-type").unwrap(),
        "text/plain; charset=utf-8"
    );
}

#[test]
fn permissions_policy_default_value() {
    let mw = security_headers_middleware(SecurityHeadersConfig::default());
    let resp = mw.apply(ok_response());
    assert_eq!(
        resp.headers().get("permissions-policy").unwrap(),
        "camera=(), microphone=(), geolocation=()"
    );
}

#[test]
fn builders_replace_values() {
    let mw = security_headers_middleware(
        SecurityHeadersConfig::new()
            .frame_options("SAMEORIGIN")
            .referrer_policy("same-origin")
            .content_type_options("nosniff")
            .permissions_policy("camera=()")
            .without_content_type_options(),
    );
    let resp = mw.apply(Response::ok());
    assert_eq!(resp.headers().get("x-frame-options").unwrap(), "SAMEORIGIN");
    assert_eq!(resp.headers().get("referrer-policy").unwrap(), "same-origin");
    assert_eq!(resp.headers().get("permissions-policy").unwrap(), "camera=()");
    assert!(resp.headers().get("x-content-type-options").is_none());
}
