use harrow::json::{
    deserialize, next_json_capacity_hint, JsonBufferPool, JsonCapacityHints, CONTENT_TYPE,
    DEFAULT_JSON_CAPACITY, MAX_CACHED_JSON_CAPACITY, MAX_POOLED_JSON_BUFFERS,
};

#[test]
fn deserialize_error_on_invalid_input() {
    let result = deserialize::<serde_json::Value>(b"not json");
    assert!(result.is_err());
}

#[test]
fn content_type_is_correct() {
    assert_eq!(CONTENT_TYPE, "application/json");
}

fn large_sample(n: u32) -> serde_json::Value {
    let mut users = Vec::new();
    for i in 0..n {
        let mut user = serde_json::Map::new();
        user.insert("name".to_string(), serde_json::Value::String(format!("user-{i}")));
        user.insert("value".to_string(), serde_json::Value::from(i));
        users.push(serde_json::Value::Object(user));
    }
    let mut root = serde_json::Map::new();
    root.insert("users".to_string(), serde_json::Value::Array(users));
    serde_json::Value::Object(root)
}

#[test]
fn capacity_hint_grows_for_repeated_large_type() {
    let mut hints = JsonCapacityHints::new();
    let kind_name = "LargeSample";
    assert_eq!(hints.hint(kind_name), DEFAULT_JSON_CAPACITY);

    let bytes = serde_json::to_vec(&large_sample(128)).unwrap();
    hints.update(kind_name, bytes.len());
    let hint = hints.hint(kind_name);

    assert!(hint >= bytes.len());
    assert!(hint > DEFAULT_JSON_CAPACITY);

    let bytes_again = serde_json::to_vec(&large_sample(128)).unwrap();
    assert_eq!(bytes, bytes_again);
    hints.update(kind_name, bytes_again.len());
    assert_eq!(hints.hint(kind_name), hint);
}

#[test]
fn serialize_returns_buffer_to_thread_local_pool_on_drop() {
    let mut pool = JsonBufferPool::new();
    let mut buf = pool.acquire(DEFAULT_JSON_CAPACITY);
    assert_eq!(pool.len(), 0);
    serde_json::to_writer(&mut buf, &large_sample(32)).unwrap();
    assert!(pool.recycle(buf));
    assert_eq!(pool.len(), 1);
}

#[test]
fn capacity_hint_formula() {
    assert_eq!(next_json_capacity_hint(0), 256);
    assert_eq!(next_json_capacity_hint(256), 256);
    assert_eq!(next_json_capacity_hint(257), 512);
    assert_eq!(next_json_capacity_hint(5000), 8192);
    assert_eq!(next_json_capacity_hint(MAX_CACHED_JSON_CAPACITY), MAX_CACHED_JSON_CAPACITY);
    assert_eq!(next_json_capacity_hint(MAX_CACHED_JSON_CAPACITY + 1), MAX_CACHED_JSON_CAPACITY);
    assert_eq!(next_json_capacity_hint(usize::MAX), MAX_CACHED_JSON_CAPACITY);
}

#[test]
fn hints_never_shrink() {
    let mut hints = JsonCapacityHints::new();
    hints.update("T", 10_000);
    assert_eq!(hints.hint("T"), 16384);
    hints.update("T", 10);
    assert_eq!(hints.hint("T"), 16384);
    assert_eq!(hints.hint("U"), DEFAULT_JSON_CAPACITY);
}

#[test]
fn pool_keeps_at_most_eight_and_drops_oversized() {
    let mut pool = JsonBufferPool::new();
    for _ in 0..MAX_POOLED_JSON_BUFFERS {
        assert!(pool.recycle(Vec::with_capacity(16)));
    }
    assert_eq!(pool.len(), MAX_POOLED_JSON_BUFFERS);
    assert!(!pool.recycle(Vec::with_capacity(16)));
    assert_eq!(pool.len(), MAX_POOLED_JSON_BUFFERS);

    let mut empty = JsonBufferPool::new();
    assert!(!empty.recycle(Vec::with_capacity(MAX_CACHED_JSON_CAPACITY + 1)));
    assert_eq!(empty.len(), 0);
}

#[test]
fn acquired_buffers_are_empty_and_sized() {
    let mut pool = JsonBufferPool::new();
    let fresh = pool.acquire(1000);
    assert!(fresh.is_empty());
    assert!(fresh.capacity() >= 1024);

    let mut used = Vec::with_capacity(64);
    used.extend_from_slice(b"leftover");
    assert!(pool.recycle(used));
    assert_eq!(pool.len(), 1);
    let buf = pool.acquire(10);
    assert!(buf.is_empty());
    assert!(buf.capacity() >= 64);
    assert_eq!(pool.len(), 0);
}

fn sample(name: &str, value: u32) -> serde_json::Value {
    let mut map = serde_json::Map::new();
    map.insert("name".to_string(), serde_json::Value::String(name.to_string()));
    map.insert("value".to_string(), serde_json::Value::from(value));
    serde_json::Value::Object(map)
}

#[test]
fn round_trip() {
    let input = sample("test", 42);
    let mut pool = JsonBufferPool::new();
    let mut buf = pool.acquire(DEFAULT_JSON_CAPACITY);
    serde_json::to_writer(&mut buf, &input).unwrap();
    let output: serde_json::Value = deserialize(&buf).unwrap();
    assert_eq!(input, output);
    let pair: (String, u32) = deserialize(br#"["test", 42]"#).unwrap();
    assert_eq!(pair, ("test".to_string(), 42));
}

#[test]
fn serialize_produces_valid_json() {
    let mut pool = JsonBufferPool::new();
    let mut buf = pool.acquire(DEFAULT_JSON_CAPACITY);
    serde_json::to_writer(&mut buf, &sample("hello", 1)).unwrap();
    let parsed: serde_json::Value = deserialize(&buf).unwrap();
    assert_eq!(parsed["name"], "hello");
    assert_eq!(parsed["value"], 1);
}

#[test]
fn pooled_buffers_come_back_empty() {
    let mut pool = JsonBufferPool::new();
    let mut buf = Vec::with_capacity(1024);
    buf.extend_from_slice(b"{\"a\":1}");
    assert!(pool.recycle(buf));
    let again = pool.acquire(16);
    assert!(again.is_empty());
    assert!(again.capacity() >= 1024);
    assert_eq!(pool.len(), 0);
}
