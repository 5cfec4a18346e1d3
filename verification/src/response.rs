//! Harrow's response: a status, a header map and a body, built by chained
//! methods.
//!
//! Header names and values go through the `http` crate's own validation, as
//! an `http::Response` would; the server backend converts the finished value
//! into an `http::Response` when it writes it out.
use vstd::prelude::*;
use vstd::string::StrSliceExecFns;

use crate::keyed::{
    keyed_map, keys_distinct, lemma_keyed_at, lemma_keyed_dom_len, lemma_keyed_push,
    lemma_keyed_same, lemma_keyed_update,
};
use crate::text::{ascii_lower_seq, str_equal};

verus! {

/// A character `http` accepts in a header name: an RFC 9110 `tchar` (letters,
/// digits and ``!#$%&'*+-.^_`|~``).
pub open spec fn header_name_char(c: char) -> bool {
    ||| 'a' <= c && c <= 'z'
    ||| 'A' <= c && c <= 'Z'
    ||| '0' <= c && c <= '9'
    ||| c == '!' || c == '#' || c == '$' || c == '%' || c == '&' || c == '\''
    ||| c == '*' || c == '+' || c == '-' || c == '.' || c == '^' || c == '_'
    ||| c == '`' || c == '|' || c == '~'
}

/// Every character of `s` is accepted in a header name.
pub open spec fn header_name_chars(s: Seq<char>) -> bool
    decreases s.len(),
{
    s.len() == 0 || (header_name_char(s.last()) && header_name_chars(s.drop_last()))
}

/// The normalized form of a header name, as `http::HeaderName::from_bytes`
/// gives it (`as_str()` of the result): a name of 1 to 65535 characters, all
/// accepted, lowercased in ASCII; `None` for any other name.
pub open spec fn parsed_header_name(name: Seq<char>) -> Option<Seq<char>> {
    if 1 <= name.len() <= 65535 && header_name_chars(name) {
        Some(ascii_lower_seq(name))
    } else {
        None
    }
}

/// `http::HeaderName::from_bytes` on the name's bytes, handing back the normalized
/// name's text: the crate's table maps each accepted byte to its lowercase form and
/// every other byte (all non-ASCII bytes among them) to a refusal, and names of 0 or
/// more than 65535 bytes are refused (see [`parsed_header_name`]).
#[verifier::external_body]
fn parse_header_name(name: &str) -> (r: Option<String>)
    ensures
        parsed_header_name(name@) == (match r {
            Some(s) => Some(s@),
            None => None,
        }),
{
    match http::header::HeaderName::from_bytes(name.as_bytes()) {
        Ok(n) => Some(n.as_str().to_string()),
        Err(_) => None,
    }
}

/// A byte that `http::HeaderValue` accepts: visible ASCII, tab, or any byte of 128 or more.
pub open spec fn header_value_char_ok(c: char) -> bool {
    c == '\t' || (32 <= (c as u32) && (c as u32) != 127)
}

/// Whether `http::HeaderValue::from_str` accepts the text (every UTF-8 byte of a
/// non-ASCII character is 128 or more, so it is accepted).
pub open spec fn header_value_valid(value: Seq<char>) -> bool {
    forall|i: int| 0 <= i < value.len() ==> header_value_char_ok(#[trigger] value[i])
}

/// `http::HeaderValue::from_str`: accepted exactly when every byte is a tab, or at least 32
/// and not 127 (the crate's `is_valid` test over the UTF-8 bytes).
#[verifier::external_body]
fn header_value_accepted(value: &str) -> (r: bool)
    ensures
        r == header_value_valid(value@),
{
    http::header::HeaderValue::from_str(value).is_ok()
}

/// The key of a header entry: its name's text.
pub open spec fn entry_name() -> spec_fn((String, String)) -> Seq<char> {
    |e: (String, String)| e.0@
}

/// The value of a header entry: its value's text.
pub open spec fn entry_value() -> spec_fn((String, String)) -> Seq<char> {
    |e: (String, String)| e.1@
}

/// The map that a list of distinct-named entries stands for.
pub open spec fn entry_map(s: Seq<(String, String)>) -> Map<Seq<char>, Seq<char>> {
    keyed_map(s, entry_name(), entry_value())
}

/// No two entries share a name.
pub open spec fn names_distinct(s: Seq<(String, String)>) -> bool {
    keys_distinct(s, entry_name())
}

/// What a header lookup by name finds in a map keyed by normalized names.
pub open spec fn header_lookup(map: Map<Seq<char>, Seq<char>>, name: Seq<char>) -> Option<
    Seq<char>,
> {
    match parsed_header_name(name) {
        Some(n) => if map.contains_key(n) {
            Some(map[n])
        } else {
            None
        },
        None => None,
    }
}

/// What setting a header does to a map: the normalized name gets the value, if
/// both the name and the value are accepted; otherwise nothing changes.
pub open spec fn header_set(map: Map<Seq<char>, Seq<char>>, name: Seq<char>, value: Seq<char>) -> Map<
    Seq<char>,
    Seq<char>,
> {
    match parsed_header_name(name) {
        Some(n) => if header_value_valid(value) {
            map.insert(n, value)
        } else {
            map
        },
        None => map,
    }
}

/// A header set to an accepted value reads back as that value, under the
/// name it was set by.
pub proof fn lemma_read_after_set(map: Map<Seq<char>, Seq<char>>, name: Seq<char>, value: Seq<char>)
    requires
        parsed_header_name(name) is Some,
        header_value_valid(value),
    ensures
        header_lookup(header_set(map, name, value), name) == Some(value),
{
}

/// Setting a header leaves every header of another normalized name as it was.
pub proof fn lemma_set_keeps_other_names(
    map: Map<Seq<char>, Seq<char>>,
    name: Seq<char>,
    value: Seq<char>,
    other: Seq<char>,
)
    requires
        parsed_header_name(other) != parsed_header_name(name),
    ensures
        header_lookup(header_set(map, name, value), other) == header_lookup(map, other),
{
}

/// Setting a header twice by the same name keeps only the second value.
pub proof fn lemma_second_set_wins(
    map: Map<Seq<char>, Seq<char>>,
    name: Seq<char>,
    first: Seq<char>,
    second: Seq<char>,
)
    requires
        header_value_valid(second),
    ensures
        header_set(header_set(map, name, first), name, second) == header_set(map, name, second),
{
    if let Some(n) = parsed_header_name(name) {
        if header_value_valid(first) {
            assert(map.insert(n, first).insert(n, second) =~= map.insert(n, second));
        }
    }
}

/// Response headers: one value per normalized name.
pub struct HeaderMap {
    entries: Vec<(String, String)>,
}

impl HeaderMap {
    #[verifier::type_invariant]
    spec fn distinct(self) -> bool {
        names_distinct(self.entries@)
    }

    /// The map from normalized header name to value.
    pub closed spec fn map(self) -> Map<Seq<char>, Seq<char>> {
        entry_map(self.entries@)
    }

    /// An empty header map.
    pub fn new() -> (h: Self)
        ensures
            h.map() == Map::<Seq<char>, Seq<char>>::empty(),
    {
        let h = HeaderMap { entries: Vec::new() };
        assert(h.map() =~= Map::<Seq<char>, Seq<char>>::empty());
        h
    }

    /// The value stored under an already-normalized name.
    fn get_normalized(&self, name: &str) -> (r: Option<&str>)
        ensures
            match r {
                Some(v) => self.map().contains_key(name@) && self.map()[name@] == v@,
                None => !self.map().contains_key(name@),
            },
    {
        proof {
            use_type_invariant(self);
        }
        match find_in(&self.entries, name) {
            Some(i) => {
                proof {
                    lemma_keyed_at(self.entries@, entry_name(), entry_value(), i as int);
                }
                Some(self.entries[i].1.as_str())
            },
            None => None,
        }
    }

    /// The value of the header `name` (normalized as `http` does), if present.
    pub fn get(&self, name: &str) -> (r: Option<&str>)
        ensures
            match r {
                Some(v) => header_lookup(self.map(), name@) == Some(v@),
                None => header_lookup(self.map(), name@) is None,
            },
    {
        match parse_header_name(name) {
            Some(n) => self.get_normalized(n.as_str()),
            None => None,
        }
    }

    /// Whether a header `name` (normalized as `http` does) is present.
    pub fn contains_key(&self, name: &str) -> (b: bool)
        ensures
            b == header_lookup(self.map(), name@) is Some,
    {
        self.get(name).is_some()
    }

    /// Number of distinct header names.
    pub fn len(&self) -> (n: usize)
        ensures
            n == self.map().dom().len(),
    {
        proof {
            use_type_invariant(self);
            lemma_keyed_dom_len(self.entries@, entry_name(), entry_value());
        }
        self.entries.len()
    }

    /// Store `value` under the already-normalized `name`, replacing any earlier value.
    pub(crate) fn insert_normalized(&mut self, name: String, value: String)
        ensures
            final(self).map() == old(self).map().insert(name@, value@),
    {
        proof {
            use_type_invariant(&*self);
        }
        let ghost old_entries = self.entries@;
        let mut entries: Vec<(String, String)> = Vec::new();
        std::mem::swap(&mut entries, &mut self.entries);
        assert(entries@ == old_entries);
        let found = find_in(&entries, name.as_str());
        let ghost k = name@;
        let ghost v = value@;
        match found {
            Some(i) => {
                entries.set(i, (name, value));
                proof {
                    lemma_keyed_update(
                        old_entries,
                        entry_name(),
                        entry_value(),
                        i as int,
                        entries@[i as int],
                    );
                }
            },
            None => {
                entries.push((name, value));
                proof {
                    lemma_keyed_push(old_entries, entry_name(), entry_value(), entries@.last());
                }
            },
        }
        self.entries = entries;
    }

    /// Set the header `name` to `value`, replacing an earlier value; a name or
    /// a value that `http` refuses leaves the map unchanged.
    pub fn insert(&mut self, name: &str, value: &str)
        ensures
            final(self).map() == header_set(old(self).map(), name@, value@),
    {
        let parsed = parse_header_name(name);
        let valid_value = header_value_accepted(value);
        match parsed {
            Some(n) => {
                if valid_value {
                    let v = crate::text::to_string(value);
                    self.insert_normalized(n, v);
                }
            },
            None => {},
        }
    }

    /// All entries, as (normalized name, value) pairs with distinct names.
    pub fn to_vec(&self) -> (r: Vec<(String, String)>)
        ensures
            names_distinct(r@),
            entry_map(r@) == self.map(),
            r@.len() == self.map().dom().len(),
    {
        proof {
            use_type_invariant(self);
            lemma_keyed_dom_len(self.entries@, entry_name(), entry_value());
        }
        let mut out: Vec<(String, String)> = Vec::new();
        let mut i: usize = 0;
        while i < self.entries.len()
            invariant
                names_distinct(self.entries@),
                i <= self.entries@.len(),
                out@.len() == i,
                forall|j: int|
                    0 <= j < i ==> (#[trigger] out@[j]).0@ == self.entries@[j].0@ && out@[j].1@
                        == self.entries@[j].1@,
            decreases self.entries@.len() - i,
        {
            let name = self.entries[i].0.clone();
            let value = self.entries[i].1.clone();
            out.push((name, value));
            i = i + 1;
        }
        proof {
            lemma_keyed_same(
                out@,
                entry_name(),
                entry_value(),
                self.entries@,
                entry_name(),
                entry_value(),
            );
        }
        out
    }
}

/// `find` over a plain entry list.
fn find_in(entries: &Vec<(String, String)>, name: &str) -> (r: Option<usize>)
    ensures
        match r {
            Some(i) => i < entries@.len() && entries@[i as int].0@ == name@,
            None => forall|i: int| 0 <= i < entries@.len() ==> #[trigger] entries@[i].0@ != name@,
        },
{
    let mut i: usize = 0;
    while i < entries.len()
        invariant
            i <= entries@.len(),
            forall|j: int| 0 <= j < i ==> #[trigger] entries@[j].0@ != name@,
        decreases entries@.len() - i,
    {
        if str_equal(entries[i].0.as_str(), name) {
            return Some(i);
        }
        i = i + 1;
    }
    None
}

/// The reason phrase-free status code range that `http::StatusCode::from_u16` accepts.
pub open spec fn status_valid(code: u16) -> bool {
    100 <= code && code <= 999
}

/// The text content type that [`Response::text`] sets.
pub open spec fn text_content_type() -> Seq<char> {
    "text/plain; charset=utf-8"@
}

/// Harrow's response wrapper. Built via chained methods, no builder traits.
pub struct Response {
    status: u16,
    headers: HeaderMap,
    body: Vec<u8>,
}

impl Response {
    #[verifier::type_invariant]
    spec fn status_in_range(self) -> bool {
        status_valid(self.status)
    }

    /// The status code.
    pub closed spec fn status_of(self) -> u16 {
        self.status
    }

    /// The headers, by normalized name.
    pub closed spec fn headers_of(self) -> Map<Seq<char>, Seq<char>> {
        self.headers.map()
    }

    /// The body bytes.
    pub closed spec fn body_of(self) -> Seq<u8> {
        self.body@
    }

    /// Create a response with the given status and body, and no headers.
    pub fn new(status: u16, body: Vec<u8>) -> (r: Self)
        requires
            status_valid(status),
        ensures
            r.status_of() == status,
            r.headers_of() == Map::<Seq<char>, Seq<char>>::empty(),
            r.body_of() == body@,
    {
        Response { status, headers: HeaderMap::new(), body }
    }

    /// 200 OK with empty body.
    pub fn ok() -> (r: Self)
        ensures
            r.status_of() == 200,
            r.headers_of() == Map::<Seq<char>, Seq<char>>::empty(),
            r.body_of() == Seq::<u8>::empty(),
    {
        Self::new(200, Vec::new())
    }

    /// 200 OK with a text body (its UTF-8 bytes) and a plain-text content type.
    pub fn text(body: &str) -> (r: Self)
        ensures
            r.status_of() == 200,
            r.headers_of() == header_set(
                Map::<Seq<char>, Seq<char>>::empty(),
                "content-type"@,
                text_content_type(),
            ),
            r.body_of() == vstd::utf8::encode_utf8(body@),
    {
        let bytes = body.as_bytes_vec();
        let mut resp = Self::new(200, bytes);
        resp.set_header("content-type", "text/plain; charset=utf-8");
        resp
    }

    /// Set the status code; a code outside 100..=999 becomes 200, as
    /// `StatusCode::from_u16(..).unwrap_or(StatusCode::OK)` does.
    pub fn status(self, status: u16) -> (r: Self)
        ensures
            r.status_of() == (if status_valid(status) {
                status
            } else {
                200u16
            }),
            r.headers_of() == self.headers_of(),
            r.body_of() == self.body_of(),
    {
        let code = if 100 <= status && status <= 999 {
            status
        } else {
            200
        };
        Response { status: code, headers: self.headers, body: self.body }
    }

    /// Set a header (replacing an earlier value); a name or value that `http`
    /// refuses leaves the response unchanged.
    pub fn header(self, name: &str, value: &str) -> (r: Self)
        ensures
            r.status_of() == self.status_of(),
            r.headers_of() == header_set(self.headers_of(), name@, value@),
            r.body_of() == self.body_of(),
    {
        let mut resp = self;
        resp.set_header(name, value);
        resp
    }

    /// In-place form of [`Response::header`].
    pub fn set_header(&mut self, name: &str, value: &str)
        ensures
            final(self).status_of() == old(self).status_of(),
            final(self).headers_of() == header_set(old(self).headers_of(), name@, value@),
            final(self).body_of() == old(self).body_of(),
    {
        proof {
            use_type_invariant(&*self);
        }
        let mut headers = HeaderMap::new();
        std::mem::swap(&mut headers, &mut self.headers);
        headers.insert(name, value);
        self.headers = headers;
    }

    /// The HTTP status code.
    pub fn status_code(&self) -> (code: u16)
        ensures
            code == self.status_of(),
            status_valid(code),
    {
        proof {
            use_type_invariant(self);
        }
        self.status
    }

    /// The response headers.
    pub fn headers(&self) -> (h: &HeaderMap)
        ensures
            h.map() == self.headers_of(),
    {
        &self.headers
    }

    /// The response body.
    pub fn body(&self) -> (b: &Vec<u8>)
        ensures
            b@ == self.body_of(),
    {
        &self.body
    }

    /// Consume the response into its status, header entries and body, for the
    /// backend that writes it out.
    pub fn into_parts(self) -> (r: (u16, Vec<(String, String)>, Vec<u8>))
        ensures
            r.0 == self.status_of(),
            status_valid(r.0),
            names_distinct(r.1@),
            entry_map(r.1@) == self.headers_of(),
            r.2@ == self.body_of(),
    {
        proof {
            use_type_invariant(&self);
        }
        let entries = self.headers.to_vec();
        (self.status, entries, self.body)
    }
}

/// Types that can be turned into a [`Response`]; implement it on error types to
/// let handlers return `Result<Response, E>`.
pub trait IntoResponse {
    fn into_response(self) -> Response;
}

impl IntoResponse for Response {
    fn into_response(self) -> (r: Response)
        ensures
            r == self,
    {
        self
    }
}

impl<E: IntoResponse> IntoResponse for Result<Response, E> {
    /// A success is its own response; an error is turned into one by its own
    /// [`IntoResponse`].
    fn into_response(self) -> (r: Response)
        ensures
            self matches Ok(ok) ==> r == ok,
            self matches Err(e) ==> call_ensures(E::into_response, (e,), r),
    {
        match self {
            Ok(r) => r,
            Err(e) => {
                let respond = E::into_response;
                respond(e)
            },
        }
    }
}

/// A handler's result is sent as the success's response, or, for an error
/// that is itself a response, as that response.
pub proof fn lemma_result_response(res: Result<Response, Response>, r: Response)
    requires
        call_ensures(<Result<Response, Response> as IntoResponse>::into_response, (res,), r),
    ensures
        match res {
            Ok(ok) => r == ok,
            Err(e) => r == e,
        },
{
}

} // verus!
