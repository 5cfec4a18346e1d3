use harrow::o11y::{derive_trace_id, encode_request_id, format_request_id, generate, O11yConfig};
use std::collections::HashSet;

#[test]
fn generated_ids_are_unique() {
    // The middleware numbers requests with a process-wide counter; each value
    // encodes to its own ID.
    let mut ids = HashSet::new();
    for n in 0..1000u64 {
        let id = encode_request_id(n);
        assert!(ids.insert(id), "duplicate request ID generated");
    }
}

#[test]
fn derive_trace_id_is_valid_w3c() {
    let trace = derive_trace_id("test-request-id");
    assert_eq!(trace.len(), 32);
    assert!(trace.chars().all(|c| c.is_ascii_hexdigit()));
}

#[test]
fn derive_trace_id_is_deterministic() {
    let a = derive_trace_id("same-input");
    let b = derive_trace_id("same-input");
    assert_eq!(a, b);
}

#[test]
fn derive_trace_id_differs_for_different_inputs() {
    let a = derive_trace_id("request-1");
    let b = derive_trace_id("request-2");
    assert_ne!(a, b);
}

#[test]
fn unique_ids() {
    let a = generate().unwrap();
    let b = generate().unwrap();
    assert_ne!(a, b);
    assert!(a.starts_with("hrw-"));
}

#[test]
fn correct_length() {
    let id = generate().unwrap();
    // "hrw-" (4) + 16 hex digits = 20 chars
    assert_eq!(id.len(), 20);
}

#[test]
fn counter_ids_are_eleven_url_safe_chars() {
    assert_eq!(encode_request_id(0), "AAAAAAAAAAA");
    assert_eq!(encode_request_id(1), "BAAAAAAAAAA");
    assert_eq!(encode_request_id(63), "_AAAAAAAAAA");
    assert_eq!(encode_request_id(64), "ABAAAAAAAAA");
    let id = encode_request_id(u64::MAX);
    assert_eq!(id.len(), 11);
    assert!(id
        .chars()
        .all(|c| c.is_ascii_alphanumeric() || c == '-' || c == '_'));
}

#[test]
fn random_ids_are_zero_padded_hex() {
    assert_eq!(format_request_id(0), "hrw-0000000000000000");
    assert_eq!(format_request_id(0xdead_beef), "hrw-00000000deadbeef");
    assert_eq!(format_request_id(u64::MAX), "hrw-ffffffffffffffff");
}

#[test]
fn trace_id_is_the_blake3_xof_prefix() {
    let mut expected = [0u8; 16];
    let mut hasher = blake3::Hasher::new();
    hasher.update(b"abc");
    hasher.finalize_xof().fill(&mut expected);
    let hex: String = expected.iter().map(|b| format!("{b:02x}")).collect();
    assert_eq!(derive_trace_id("abc"), hex);
}

#[test]
fn o11y_config_defaults_and_header() {
    let config = O11yConfig::default();
    assert_eq!(config.service_name, "harrow");
    assert_eq!(config.service_version, "0.1.0");
    assert_eq!(config.environment, "development");
    assert!(config.otlp_endpoint.is_none());
    assert_eq!(config.request_id_header, "x-request-id");
    let config = config.request_id_header("x-trace");
    assert_eq!(config.request_id_header, "x-trace");
    assert_eq!(config.service_name, "harrow");
}

#[test]
fn request_ids_prefer_the_incoming_header() {
    assert_eq!(harrow::o11y::request_id_for(Some("incoming-id-123"), 5), "incoming-id-123");
    assert_eq!(harrow::o11y::request_id_for(None, 1), encode_request_id(1));
    assert!(!harrow::o11y::counts_as_error(200));
    assert!(!harrow::o11y::counts_as_error(399));
    assert!(harrow::o11y::counts_as_error(404));
    assert!(harrow::o11y::counts_as_error(500));
}
