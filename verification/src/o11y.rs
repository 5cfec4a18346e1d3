//! Observability: configuration, request IDs and W3C trace IDs.
//!
//! - Request IDs from a counter: 11 URL-safe characters, 6 bits each, lowest
//!   bits first. No RNG, no syscalls.
//! - Request IDs from OS randomness: `hrw-` and 16 lowercase hex digits.
//! - Trace IDs: the first 16 bytes of the BLAKE3 XOF of the request ID, as 32
//!   lowercase hex digits. Deterministic: the same request ID always yields
//!   the same trace ID.
use vstd::prelude::*;
use vstd::string::StrSliceExecFns;

use crate::text::{string_from_chars, to_string};

verus! {

/// Configuration for Harrow's built-in observability.
///
/// When `otlp_endpoint` is `Some`, traces are exported via an OTLP exporter.
/// When `None`, only JSON stderr logging is active (local dev mode).
pub struct O11yConfig {
    pub service_name: &'static str,
    pub service_version: &'static str,
    pub environment: &'static str,
    pub otlp_endpoint: Option<&'static str>,
    pub request_id_header: String,
}

impl Default for O11yConfig {
    fn default() -> (c: Self)
        ensures
            c.service_name@ == "harrow"@,
            c.service_version@ == "0.1.0"@,
            c.environment@ == "development"@,
            c.otlp_endpoint is None,
            c.request_id_header@ == "x-request-id"@,
    {
        O11yConfig {
            service_name: "harrow",
            service_version: "0.1.0",
            environment: "development",
            otlp_endpoint: None,
            request_id_header: to_string("x-request-id"),
        }
    }
}

impl O11yConfig {
    /// Use another header to carry the request ID.
    pub fn request_id_header(self, header: &str) -> (c: Self)
        ensures
            c.service_name == self.service_name,
            c.service_version == self.service_version,
            c.environment == self.environment,
            c.otlp_endpoint == self.otlp_endpoint,
            c.request_id_header@ == header@,
    {
        O11yConfig { request_id_header: to_string(header), ..self }
    }
}

/// The URL-safe alphabet: `A-Z`, `a-z`, `0-9`, `-`, `_` (64 characters).
pub open spec fn alphabet_char(v: u64) -> char {
    if v < 26 {
        ((65 + v) as u32) as char
    } else if v < 52 {
        ((97 + (v - 26)) as u32) as char
    } else if v < 62 {
        ((48 + (v - 52)) as u32) as char
    } else if v == 62 {
        '-'
    } else {
        '_'
    }
}

/// The 6-bit group `i` of `n`, lowest first.
pub open spec fn six_bits(n: u64, i: int) -> u64 {
    (n >> ((6 * i) as u64)) & 0x3f
}

/// The request ID for counter value `n`: 11 characters, character `i` encoding
/// the 6-bit group `i` of `n`.
pub open spec fn counter_request_id(n: u64) -> Seq<char> {
    Seq::new(11, |i: int| alphabet_char(six_bits(n, i)))
}

/// Exec form of [`alphabet_char`].
fn alphabet(v: u64) -> (c: char)
    requires
        v < 64,
    ensures
        c == alphabet_char(v),
{
    if v < 26 {
        ((65 + v) as u8) as char
    } else if v < 52 {
        ((97 + (v - 26)) as u8) as char
    } else if v < 62 {
        ((48 + (v - 52)) as u8) as char
    } else if v == 62 {
        '-'
    } else {
        '_'
    }
}

/// Encode a request counter value as an 11-character URL-safe request ID.
pub fn encode_request_id(n: u64) -> (id: String)
    ensures
        id@ == counter_request_id(n),
{
    let mut chars: Vec<char> = Vec::new();
    let mut i: u64 = 0;
    while i < 11
        invariant
            i <= 11,
            chars@.len() == i,
            forall|j: int| 0 <= j < i ==> #[trigger] chars@[j] == alphabet_char(six_bits(n, j)),
        decreases 11 - i,
    {
        let group = (n >> (6 * i)) & 0x3f;
        assert(group < 64) by (bit_vector)
            requires
                group == (n >> (6 * i)) & 0x3f,
        ;
        chars.push(alphabet(group));
        i = i + 1;
    }
    assert(chars@ =~= counter_request_id(n));
    string_from_chars(&chars)
}

proof fn lemma_six_bits_small(n: u64, s: u64)
    ensures
        (n >> s) & 0x3f < 64,
{
    assert((n >> s) & 0x3f < 64) by (bit_vector);
}

proof fn lemma_alphabet_injective(a: u64, b: u64)
    requires
        a < 64,
        b < 64,
        alphabet_char(a) == alphabet_char(b),
    ensures
        a == b,
{
}

/// Different counter values give different request IDs.
pub proof fn lemma_counter_request_ids_unique(n1: u64, n2: u64)
    requires
        counter_request_id(n1) == counter_request_id(n2),
    ensures
        n1 == n2,
{
    assert forall|i: int| 0 <= i < 11 implies six_bits(n1, i) == six_bits(n2, i) by {
        assert(counter_request_id(n1)[i] == alphabet_char(six_bits(n1, i)));
        assert(counter_request_id(n2)[i] == alphabet_char(six_bits(n2, i)));
        lemma_six_bits_small(n1, (6 * i) as u64);
        lemma_six_bits_small(n2, (6 * i) as u64);
        lemma_alphabet_injective(six_bits(n1, i), six_bits(n2, i));
    }
    assert(six_bits(n1, 0) == six_bits(n2, 0));
    assert(six_bits(n1, 1) == six_bits(n2, 1));
    assert(six_bits(n1, 2) == six_bits(n2, 2));
    assert(six_bits(n1, 3) == six_bits(n2, 3));
    assert(six_bits(n1, 4) == six_bits(n2, 4));
    assert(six_bits(n1, 5) == six_bits(n2, 5));
    assert(six_bits(n1, 6) == six_bits(n2, 6));
    assert(six_bits(n1, 7) == six_bits(n2, 7));
    assert(six_bits(n1, 8) == six_bits(n2, 8));
    assert(six_bits(n1, 9) == six_bits(n2, 9));
    assert(six_bits(n1, 10) == six_bits(n2, 10));
    assert(n1 == n2) by (bit_vector)
        requires
            (n1 >> 0u64) & 0x3f == (n2 >> 0u64) & 0x3f,
            (n1 >> 6u64) & 0x3f == (n2 >> 6u64) & 0x3f,
            (n1 >> 12u64) & 0x3f == (n2 >> 12u64) & 0x3f,
            (n1 >> 18u64) & 0x3f == (n2 >> 18u64) & 0x3f,
            (n1 >> 24u64) & 0x3f == (n2 >> 24u64) & 0x3f,
            (n1 >> 30u64) & 0x3f == (n2 >> 30u64) & 0x3f,
            (n1 >> 36u64) & 0x3f == (n2 >> 36u64) & 0x3f,
            (n1 >> 42u64) & 0x3f == (n2 >> 42u64) & 0x3f,
            (n1 >> 48u64) & 0x3f == (n2 >> 48u64) & 0x3f,
            (n1 >> 54u64) & 0x3f == (n2 >> 54u64) & 0x3f,
            (n1 >> 60u64) & 0x3f == (n2 >> 60u64) & 0x3f,
    ;
}

/// A lowercase hex digit.
pub open spec fn hex_digit(v: u8) -> char {
    if v < 10 {
        ((48 + v) as u32) as char
    } else {
        ((97 + (v - 10)) as u32) as char
    }
}

/// Exec form of [`hex_digit`].
fn hex(v: u8) -> (c: char)
    requires
        v < 16,
    ensures
        c == hex_digit(v),
{
    if v < 10 {
        (48 + v) as char
    } else {
        (97 + (v - 10)) as char
    }
}

/// Whether a character is a lowercase hex digit.
pub open spec fn is_lower_hex(c: char) -> bool {
    ('0' <= c && c <= '9') || ('a' <= c && c <= 'f')
}

/// Lowercase hex of bytes, high nibble first.
pub open spec fn hex_text(bytes: Seq<u8>) -> Seq<char>
    decreases bytes.len(),
{
    if bytes.len() == 0 {
        Seq::<char>::empty()
    } else {
        hex_text(bytes.drop_last()) + seq![
            hex_digit(bytes.last() >> 4u8),
            hex_digit(bytes.last() & 0x0fu8),
        ]
    }
}

/// Hex text is two lowercase hex digits per byte.
pub proof fn lemma_hex_text_shape(bytes: Seq<u8>)
    ensures
        hex_text(bytes).len() == 2 * bytes.len(),
        forall|i: int| 0 <= i < hex_text(bytes).len() ==> is_lower_hex(#[trigger] hex_text(bytes)[i]),
    decreases bytes.len(),
{
    if bytes.len() > 0 {
        lemma_hex_text_shape(bytes.drop_last());
        let b = bytes.last();
        let hi = b >> 4u8;
        let lo = b & 0x0fu8;
        assert(hi < 16) by (bit_vector)
            requires
                hi == b >> 4u8,
        ;
        assert(lo < 16) by (bit_vector)
            requires
                lo == b & 0x0fu8,
        ;
    }
}

/// Lowercase hex of bytes.
fn to_hex(bytes: &[u8]) -> (r: String)
    ensures
        r@ == hex_text(bytes@),
{
    let mut chars: Vec<char> = Vec::new();
    let mut i: usize = 0;
    while i < bytes.len()
        invariant
            i <= bytes@.len(),
            chars@ == hex_text(bytes@.subrange(0, i as int)),
        decreases bytes@.len() - i,
    {
        let b = bytes[i];
        let hi = b >> 4;
        let lo = b & 0x0f;
        assert(hi < 16) by (bit_vector)
            requires
                hi == b >> 4u8,
        ;
        assert(lo < 16) by (bit_vector)
            requires
                lo == b & 0x0fu8,
        ;
        chars.push(hex(hi));
        chars.push(hex(lo));
        proof {
            let next = bytes@.subrange(0, i + 1);
            assert(next.drop_last() =~= bytes@.subrange(0, i as int));
            assert(next.last() == b);
        }
        i = i + 1;
    }
    assert(bytes@.subrange(0, bytes@.len() as int) =~= bytes@);
    string_from_chars(&chars)
}

/// The first 16 bytes of the BLAKE3 extendable output of the input.
pub uninterp spec fn blake3_xof16(data: Seq<u8>) -> Seq<u8>;

/// `blake3::Hasher::new`, `update`, `finalize_xof` and `fill` of a 16-byte buffer:
/// the bytes are named by [`blake3_xof16`]; there are 16 of them.
#[verifier::external_body]
fn blake3_trace_bytes(data: &[u8]) -> (r: Vec<u8>)
    ensures
        r@ == blake3_xof16(data@),
        r@.len() == 16,
{
    let mut out = [0u8; 16];
    let mut hasher = blake3::Hasher::new();
    hasher.update(data);
    hasher.finalize_xof().fill(&mut out);
    out.to_vec()
}

/// The trace ID of a request ID.
pub open spec fn trace_id_of(request_id: Seq<char>) -> Seq<char> {
    hex_text(blake3_xof16(vstd::utf8::encode_utf8(request_id)))
}

/// Derive a W3C-compliant 128-bit trace ID (32 lowercase hex digits) from a request ID.
pub fn derive_trace_id(request_id: &str) -> (t: String)
    ensures
        t@ == trace_id_of(request_id@),
        t@.len() == 32,
        forall|i: int| 0 <= i < 32 ==> is_lower_hex(#[trigger] t@[i]),
{
    let bytes = request_id.as_bytes_vec();
    let digest = blake3_trace_bytes(bytes.as_slice());
    proof {
        lemma_hex_text_shape(digest@);
    }
    to_hex(digest.as_slice())
}

/// The 16 hex digits of `id`, most significant first, zero-padded.
pub open spec fn hex16(id: u64) -> Seq<char> {
    Seq::new(16, |i: int| hex_digit(((id >> ((4 * (15 - i)) as u64)) & 0xf) as u8))
}

/// The random request ID text for `id`: `hrw-` and 16 lowercase hex digits.
pub open spec fn random_request_id(id: u64) -> Seq<char> {
    "hrw-"@ + hex16(id)
}

/// Format a 64-bit value as a request ID: `hrw-` followed by 16 lowercase hex digits.
pub fn format_request_id(id: u64) -> (r: String)
    ensures
        r@ == random_request_id(id),
        r@.len() == 20,
{
    let mut chars = crate::text::chars_of("hrw-");
    proof {
        reveal_strlit("hrw-");
    }
    let mut i: u64 = 0;
    while i < 16
        invariant
            i <= 16,
            chars@.len() == 4 + i,
            chars@.subrange(0, 4) == "hrw-"@,
            forall|j: int| 0 <= j < i ==> #[trigger] chars@[4 + j] == hex16(id)[j],
        decreases 16 - i,
    {
        let shift: u64 = 4 * (15 - i);
        let nibble = (id >> shift) & 0xf;
        assert(nibble < 16) by (bit_vector)
            requires
                nibble == (id >> shift) & 0xf,
        ;
        let ghost before = chars@;
        chars.push(hex(nibble as u8));
        proof {
            assert(chars@.subrange(0, 4) =~= before.subrange(0, 4));
            assert(chars@[4 + i as int] == hex16(id)[i as int]);
        }
        i = i + 1;
    }
    proof {
        let target = random_request_id(id);
        assert(target.len() == 20);
        assert forall|k: int| 0 <= k < 20 implies chars@[k] == target[k] by {
            if k < 4 {
                assert(chars@.subrange(0, 4)[k] == chars@[k]);
            } else {
                assert(chars@[4 + (k - 4)] == hex16(id)[k - 4]);
            }
        }
        assert(chars@ =~= target);
    }
    string_from_chars(&chars)
}

/// 8 bytes from the operating system's random source (`getrandom::fill`), read as a
/// native-endian `u64`. The value is left unconstrained; `None` when the source fails.
#[verifier::external_body]
fn random_u64() -> (r: Option<u64>) {
    let mut buf = [0u8; 8];
    match getrandom::fill(&mut buf) {
        Ok(()) => Some(u64::from_ne_bytes(buf)),
        Err(_) => None,
    }
}

/// Generate a random request ID (`hrw-` and 16 lowercase hex digits, 64 bits of
/// entropy); `None` when the operating system's random source fails.
pub fn generate() -> (r: Option<String>)
    ensures
        r matches Some(s) ==> exists|id: u64| s@ == random_request_id(id),
        r matches Some(s) ==> s@.len() == 20,
{
    match random_u64() {
        Some(id) => Some(format_request_id(id)),
        None => None,
    }
}

/// The request ID of a request: the one it carries in the configured header,
/// else the ID of the next counter value.
pub fn request_id_for(incoming: Option<&str>, counter: u64) -> (id: String)
    ensures
        incoming matches Some(v) ==> id@ == v@,
        incoming is None ==> id@ == counter_request_id(counter),
{
    match incoming {
        Some(v) => to_string(v),
        None => encode_request_id(counter),
    }
}

/// Whether a response counts in the error counter: any 4xx or 5xx status.
pub fn counts_as_error(status: u16) -> (b: bool)
    ensures
        b == (status >= 400),
{
    status >= 400
}

} // verus!
