//! WebSocket upgrade handshake and shared types (RFC 6455).
//!
//! The runtime-agnostic parts of WebSocket support: handshake validation,
//! the accept key, the 101 response and the message type. Frame handling
//! belongs to the server backends.
use vstd::prelude::*;
use vstd::string::StrSliceExecFns;
use base64::Engine;
use sha1::Digest;

use crate::response::{
    header_lookup, header_name_chars, header_set, parsed_header_name, HeaderMap, IntoResponse,
    Response,
};
use crate::text::{ascii_lower, ascii_lower_seq, chars_of, str_equal, to_ascii_lowercase};

verus! {

/// The WebSocket GUID used in the Sec-WebSocket-Accept computation (RFC 6455).
pub const WS_GUID: &'static str = "258EAFA5-E914-47DA-95CA-C5AB0DC85B11";

/// Errors that can occur during WebSocket handshake validation.
#[derive(Debug, Clone, Copy, PartialEq, Eq, Structural)]
pub enum WsError {
    /// Missing or incorrect `Upgrade: websocket` header.
    MissingUpgrade,
    /// Missing or incorrect `Connection: Upgrade` header.
    MissingConnection,
    /// Missing `Sec-WebSocket-Key` header.
    MissingKey,
    /// Missing or unsupported `Sec-WebSocket-Version` (must be "13").
    UnsupportedVersion,
}

/// The text each handshake error is reported with.
pub open spec fn ws_error_text(e: WsError) -> Seq<char> {
    match e {
        WsError::MissingUpgrade => "missing Upgrade: websocket header"@,
        WsError::MissingConnection => "missing Connection: Upgrade header"@,
        WsError::MissingKey => "missing Sec-WebSocket-Key header"@,
        WsError::UnsupportedVersion => "unsupported Sec-WebSocket-Version (expected 13)"@,
    }
}

impl WsError {
    /// The human-readable description of the error.
    pub fn message(&self) -> (s: &'static str)
        ensures
            s@ == ws_error_text(*self),
    {
        match self {
            WsError::MissingUpgrade => "missing Upgrade: websocket header",
            WsError::MissingConnection => "missing Connection: Upgrade header",
            WsError::MissingKey => "missing Sec-WebSocket-Key header",
            WsError::UnsupportedVersion => "unsupported Sec-WebSocket-Version (expected 13)",
        }
    }

    /// The 400 response that reports the error.
    pub fn to_response(self) -> (r: Response)
        ensures
            r.status_of() == 400,
            r.headers_of() == Map::<Seq<char>, Seq<char>>::empty(),
            r.body_of() == vstd::utf8::encode_utf8(ws_error_text(self)),
    {
        Response::new(400, self.message().as_bytes_vec())
    }
}

impl IntoResponse for WsError {
    fn into_response(self) -> (r: Response)
        ensures
            r.status_of() == 400,
            r.headers_of() == Map::<Seq<char>, Seq<char>>::empty(),
            r.body_of() == vstd::utf8::encode_utf8(ws_error_text(self)),
    {
        self.to_response()
    }
}

/// A handler that fails the handshake and returns the error sends the
/// error's own response: 400, no headers, the error's text as the body.
pub proof fn lemma_handshake_error_result_response(e: WsError, r: Response)
    requires
        call_ensures(<Result<Response, WsError> as IntoResponse>::into_response, (Err(e),), r),
    ensures
        r.status_of() == 400,
        r.headers_of() == Map::<Seq<char>, Seq<char>>::empty(),
        r.body_of() == vstd::utf8::encode_utf8(ws_error_text(e)),
{
}

/// ASCII case-insensitive equality (`str::eq_ignore_ascii_case`).
pub open spec fn eq_ignore_ascii_case(a: Seq<char>, b: Seq<char>) -> bool {
    ascii_lower_seq(a) == ascii_lower_seq(b)
}

/// Whether `needle` occurs in `hay` as a contiguous run (`str::contains`).
pub open spec fn contains_run(hay: Seq<char>, needle: Seq<char>) -> bool {
    exists|i: int| 0 <= i <= hay.len() - needle.len() && #[trigger] hay.subrange(i, i + needle.len()) == needle
}

/// The outcome of handshake validation on a request's headers.
pub open spec fn upgrade_check(headers: Map<Seq<char>, Seq<char>>) -> Result<Seq<char>, WsError> {
    let upgrade = header_lookup(headers, "upgrade"@);
    let conn = header_lookup(headers, "connection"@);
    let version = header_lookup(headers, "sec-websocket-version"@);
    let key = header_lookup(headers, "sec-websocket-key"@);
    if upgrade is None || !eq_ignore_ascii_case(upgrade.unwrap(), "websocket"@) {
        Err(WsError::MissingUpgrade)
    } else if conn is None || !contains_run(ascii_lower_seq(conn.unwrap()), "upgrade"@) {
        Err(WsError::MissingConnection)
    } else if version is None || version.unwrap() != "13"@ {
        Err(WsError::UnsupportedVersion)
    } else if key is None {
        Err(WsError::MissingKey)
    } else {
        Ok(key.unwrap())
    }
}

/// The handshake's header names are their own normalized forms.
proof fn lemma_handshake_names()
    ensures
        parsed_header_name("upgrade"@) == Some("upgrade"@),
        parsed_header_name("connection"@) == Some("connection"@),
        parsed_header_name("sec-websocket-version"@) == Some("sec-websocket-version"@),
        parsed_header_name("sec-websocket-key"@) == Some("sec-websocket-key"@),
        "upgrade"@ != "connection"@,
        "upgrade"@ != "sec-websocket-version"@,
        "upgrade"@ != "sec-websocket-key"@,
        "connection"@ != "sec-websocket-version"@,
        "connection"@ != "sec-websocket-key"@,
        "sec-websocket-version"@ != "sec-websocket-key"@,
{
    reveal_strlit("upgrade");
    reveal_strlit("connection");
    reveal_strlit("sec-websocket-version");
    reveal_strlit("sec-websocket-key");
    reveal_with_fuel(header_name_chars, 22);
    assert(header_name_chars("upgrade"@));
    assert(header_name_chars("connection"@));
    assert(header_name_chars("sec-websocket-version"@));
    assert(header_name_chars("sec-websocket-key"@));
    assert(ascii_lower_seq("upgrade"@) =~= "upgrade"@);
    assert(ascii_lower_seq("connection"@) =~= "connection"@);
    assert(ascii_lower_seq("sec-websocket-version"@) =~= "sec-websocket-version"@);
    assert(ascii_lower_seq("sec-websocket-key"@) =~= "sec-websocket-key"@);
}

/// Handshake validation does not depend on the letter case of the
/// `Connection` header's value: two values that differ only in ASCII case
/// give the same outcome, whatever the other headers are.
pub proof fn lemma_connection_value_case_insensitive(
    headers: Map<Seq<char>, Seq<char>>,
    v1: Seq<char>,
    v2: Seq<char>,
)
    requires
        ascii_lower_seq(v1) == ascii_lower_seq(v2),
    ensures
        upgrade_check(headers.insert("connection"@, v1)) == upgrade_check(
            headers.insert("connection"@, v2),
        ),
{
    lemma_handshake_names();
}

/// A request that asks for `websocket` (in any letter case), whose
/// `Connection` value contains `upgrade` in any letter case (such as
/// `keep-alive, Upgrade`), with version 13 and a key, is accepted with that
/// key, whatever other headers it has.
pub proof fn lemma_valid_handshake_accepted(
    headers: Map<Seq<char>, Seq<char>>,
    upgrade: Seq<char>,
    connection: Seq<char>,
    key: Seq<char>,
)
    requires
        eq_ignore_ascii_case(upgrade, "websocket"@),
        contains_run(ascii_lower_seq(connection), "upgrade"@),
    ensures
        upgrade_check(
            headers.insert("upgrade"@, upgrade).insert("connection"@, connection).insert(
                "sec-websocket-version"@,
                "13"@,
            ).insert("sec-websocket-key"@, key),
        ) == Ok::<Seq<char>, WsError>(key),
{
    lemma_handshake_names();
}

/// Exec form of [`eq_ignore_ascii_case`].
fn equal_ignoring_ascii_case(a: &str, b: &str) -> (r: bool)
    ensures
        r == eq_ignore_ascii_case(a@, b@),
{
    let la = to_ascii_lowercase(a);
    let lb = to_ascii_lowercase(b);
    str_equal(la.as_str(), lb.as_str())
}

/// Exec form of [`contains_run`].
fn contains_chars(hay: &str, needle: &str) -> (r: bool)
    ensures
        r == contains_run(hay@, needle@),
{
    let h = chars_of(hay);
    let n = chars_of(needle);
    if n.len() > h.len() {
        proof {
            assert forall|i: int| 0 <= i <= hay@.len() - needle@.len() implies #[trigger] hay@.subrange(
                i,
                i + needle@.len(),
            ) != needle@ by {}
        }
        return false;
    }
    let hl = h.len();
    let last = hl - n.len();
    let mut i: usize = 0;
    while i <= last
        invariant
            h@ == hay@,
            n@ == needle@,
            n@.len() <= h@.len(),
            hl == h@.len(),
            last == h@.len() - n@.len(),
            i <= last + 1,
            forall|j: int| 0 <= j < i ==> #[trigger] hay@.subrange(j, j + needle@.len()) != needle@,
        decreases last + 1 - i,
    {
        let mut k: usize = 0;
        let mut matched = true;
        while k < n.len()
            invariant
                h@ == hay@,
                n@ == needle@,
                n@.len() <= h@.len(),
                hl == h@.len(),
                i <= last,
                last == h@.len() - n@.len(),
                k <= n@.len(),
                matched == (forall|t: int| 0 <= t < k ==> h@[i + t] == n@[t]),
            decreases n@.len() - k,
        {
            assert(i + k < h@.len());
            if h[i + k] != n[k] {
                matched = false;
            }
            k = k + 1;
        }
        if matched {
            assert(hay@.subrange(i as int, i + needle@.len()) =~= needle@);
            return true;
        }
        assert(hay@.subrange(i as int, i + needle@.len()) != needle@) by {
            let t = choose|t: int| 0 <= t < n@.len() && h@[i + t] != n@[t];
            assert(hay@.subrange(i as int, i + needle@.len())[t] == h@[i + t]);
        }
        if i == last {
            return false;
        }
        i = i + 1;
    }
    false
}

/// Validate that a request (given by its headers) is a valid WebSocket upgrade request.
/// Returns the `Sec-WebSocket-Key` value on success; the checks come in the order
/// `Upgrade`, `Connection`, `Sec-WebSocket-Version`, `Sec-WebSocket-Key`.
pub fn validate_upgrade(headers: &HeaderMap) -> (r: Result<String, WsError>)
    ensures
        match (r, upgrade_check(headers.map())) {
            (Ok(k), Ok(k2)) => k@ == k2,
            (Err(e), Err(e2)) => e == e2,
            _ => false,
        },
{
    let upgrade = match headers.get("upgrade") {
        Some(v) => v,
        None => return Err(WsError::MissingUpgrade),
    };
    if !equal_ignoring_ascii_case(upgrade, "websocket") {
        return Err(WsError::MissingUpgrade);
    }
    let conn = match headers.get("connection") {
        Some(v) => v,
        None => return Err(WsError::MissingConnection),
    };
    let lowered = to_ascii_lowercase(conn);
    if !contains_chars(lowered.as_str(), "upgrade") {
        return Err(WsError::MissingConnection);
    }
    let version = match headers.get("sec-websocket-version") {
        Some(v) => v,
        None => return Err(WsError::UnsupportedVersion),
    };
    if !str_equal(version, "13") {
        return Err(WsError::UnsupportedVersion);
    }
    let key = match headers.get("sec-websocket-key") {
        Some(v) => v,
        None => return Err(WsError::MissingKey),
    };
    Ok(crate::text::to_string(key))
}

/// The SHA-1 digest of the bytes (the `sha1` crate's `Sha1`).
pub uninterp spec fn sha1_digest(data: Seq<u8>) -> Seq<u8>;

/// `sha1::Sha1::new`, `update`, `finalize`: the digest is named by [`sha1_digest`]
/// and is 20 bytes long (the hash's output size).
#[verifier::external_body]
fn sha1(data: &[u8]) -> (r: Vec<u8>)
    ensures
        r@ == sha1_digest(data@),
        r@.len() == 20,
{
    let mut hasher = sha1::Sha1::new();
    hasher.update(data);
    hasher.finalize().to_vec()
}

/// The character of a 6-bit value in the standard base64 alphabet
/// (`A`-`Z`, `a`-`z`, `0`-`9`, `+`, `/`).
pub open spec fn base64_char(v: u8) -> char {
    if v < 26 {
        (65 + v) as char
    } else if v < 52 {
        (97 + (v - 26)) as char
    } else if v < 62 {
        (48 + (v - 52)) as char
    } else if v == 62 {
        '+'
    } else {
        '/'
    }
}

/// The standard, padded base64 text of the bytes (RFC 4648 section 4): each
/// group of three bytes gives four characters of six bits each; a last group
/// of one or two bytes is padded with `=` to four characters.
pub open spec fn base64_standard(data: Seq<u8>) -> Seq<char>
    decreases data.len(),
{
    if data.len() == 0 {
        Seq::empty()
    } else if data.len() == 1 {
        seq![base64_char(data[0] >> 2), base64_char((data[0] & 3) << 4), '=', '=']
    } else if data.len() == 2 {
        seq![
            base64_char(data[0] >> 2),
            base64_char(((data[0] & 3) << 4) | (data[1] >> 4)),
            base64_char((data[1] & 15) << 2),
            '=',
        ]
    } else {
        seq![
            base64_char(data[0] >> 2),
            base64_char(((data[0] & 3) << 4) | (data[1] >> 4)),
            base64_char(((data[1] & 15) << 2) | (data[2] >> 6)),
            base64_char(data[2] & 63),
        ] + base64_standard(data.subrange(3, data.len() as int))
    }
}

/// Base64 text has four characters per started group of three bytes.
pub proof fn lemma_base64_len(data: Seq<u8>)
    ensures
        base64_standard(data).len() == 4 * ((data.len() + 2) / 3),
    decreases data.len(),
{
    if data.len() >= 3 {
        lemma_base64_len(data.subrange(3, data.len() as int));
    }
}

/// `base64::engine::general_purpose::STANDARD.encode`: the standard alphabet
/// with padding (see [`base64_standard`]). The crate panics when the encoded
/// length overflows, which `requires` rules out.
#[verifier::external_body]
fn base64_encode(data: &[u8]) -> (r: String)
    requires
        data@.len() <= usize::MAX / 2,
    ensures
        r@ == base64_standard(data@),
{
    base64::engine::general_purpose::STANDARD.encode(data)
}

/// The `Sec-WebSocket-Accept` value for a client key (RFC 6455 Section 4.2.2):
/// base64 of the SHA-1 of the key followed by the GUID.
pub open spec fn accept_key_spec(key: Seq<char>) -> Seq<char> {
    base64_standard(sha1_digest(vstd::utf8::encode_utf8(key) + vstd::utf8::encode_utf8(WS_GUID@)))
}

/// Compute the `Sec-WebSocket-Accept` value from the client's key.
pub fn accept_key(key: &str) -> (r: String)
    ensures
        r@ == accept_key_spec(key@),
        r@.len() == 28,
{
    let mut input = key.as_bytes_vec();
    let mut guid = WS_GUID.as_bytes_vec();
    input.append(&mut guid);
    let digest = sha1(input.as_slice());
    proof {
        lemma_base64_len(digest@);
    }
    base64_encode(digest.as_slice())
}

/// The headers of the 101 response for a client key.
pub open spec fn upgrade_headers(key: Seq<char>) -> Map<Seq<char>, Seq<char>> {
    header_set(
        header_set(
            header_set(Map::<Seq<char>, Seq<char>>::empty(), "upgrade"@, "websocket"@),
            "connection"@,
            "Upgrade"@,
        ),
        "sec-websocket-accept"@,
        accept_key_spec(key),
    )
}

/// Build the HTTP 101 Switching Protocols response for a WebSocket upgrade.
pub fn upgrade_response(key: &str) -> (r: Response)
    ensures
        r.status_of() == 101,
        r.headers_of() == upgrade_headers(key@),
        r.body_of() == Seq::<u8>::empty(),
{
    let accept = accept_key(key);
    Response::new(101, Vec::new()).header("upgrade", "websocket").header(
        "connection",
        "Upgrade",
    ).header("sec-websocket-accept", accept.as_str())
}

/// WebSocket message types.
#[derive(Debug, Clone, PartialEq, Eq)]
pub enum Message {
    /// UTF-8 text message.
    Text(String),
    /// Binary message.
    Binary(Vec<u8>),
    /// Ping message.
    Ping(Vec<u8>),
    /// Pong message.
    Pong(Vec<u8>),
    /// Close message with optional code and reason.
    Close(Option<(u16, String)>),
}

} // verus!
