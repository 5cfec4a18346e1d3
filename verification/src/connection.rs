//! The decisions a server connection makes while it reads a request and
//! writes the response.
//!
//! The connection loop performs the reads, the writes and the timers; each
//! function here takes what the last step produced and says what to do next.
//! The server reads the request head into a buffer of bounded size, and
//! refuses a body larger than the configured maximum (0 means unlimited):
//! early, from `Content-Length`, before reading it; or once a chunked body
//! has been decoded.
use vstd::prelude::*;

use crate::response::{header_lookup, header_set, HeaderMap};
use crate::text::to_string;

verus! {

/// The largest request head the server buffers (64 KiB).
pub const MAX_HEADER_BUF: usize = 65536;

/// The most bytes one read of a `Content-Length` body asks for.
pub const BODY_READ_MAX: usize = 8192;

/// A head still incomplete with this much buffered is refused as too large.
pub fn headers_too_large(buffered: usize) -> (b: bool)
    ensures
        b == (buffered >= MAX_HEADER_BUF),
{
    buffered >= MAX_HEADER_BUF
}

/// A body of `len` bytes exceeds the limit (a limit of 0 allows any size).
pub fn body_exceeds_limit(max_body: usize, len: usize) -> (b: bool)
    ensures
        b == (max_body > 0 && len > max_body),
{
    max_body > 0 && len > max_body
}

/// A request whose `Content-Length` already exceeds the limit is answered
/// 413 without reading its body (the length is taken as a `usize`).
pub fn rejects_before_body(max_body: usize, content_length: Option<u64>) -> (b: bool)
    ensures
        b == match content_length {
            Some(cl) => max_body > 0 && (cl as usize) > max_body,
            None => false,
        },
{
    match content_length {
        Some(cl) => body_exceeds_limit(max_body, cl as usize),
        None => false,
    }
}

/// What parsing the buffered bytes as a request head gave.
#[derive(Clone, Copy, Debug, PartialEq, Eq)]
pub enum HeadParse {
    /// A whole head.
    Complete,
    /// Not enough bytes yet.
    Incomplete,
    /// Bytes that no request head starts with.
    Invalid,
    /// A head whose declared body is over the codec's limit.
    BodyTooLarge,
}

/// What one read from the socket gave.
#[derive(Clone, Copy, Debug, PartialEq, Eq)]
pub enum ReadOutcome {
    /// This many bytes (0 at end of stream).
    Data(usize),
    /// The deadline passed while waiting.
    TimedOut,
    /// The read failed.
    Failed,
}

/// Why reading a request head stopped without one.
#[derive(Clone, Copy, Debug, PartialEq, Eq)]
pub enum HeadError {
    /// The bytes are no request head.
    Invalid,
    /// The head outgrew [`MAX_HEADER_BUF`].
    TooLarge,
    /// The head did not arrive before the deadline.
    Timeout,
    /// The peer closed the connection between requests.
    Closed,
    /// The peer closed the connection inside a head.
    UnexpectedEof,
    /// The read failed.
    Io,
}

/// What to do next while reading a request head.
#[derive(Clone, Copy, Debug, PartialEq, Eq)]
pub enum HeadStep {
    /// Use the parsed head.
    Parsed,
    /// Read more bytes.
    ReadMore,
    /// Stop with this error.
    Fail(HeadError),
}

/// The next step of reading a head, from the parse of what is buffered, how
/// much is buffered, and whether the head's deadline has passed: a complete
/// head is used; invalid bytes fail; an incomplete head fails once the buffer
/// is full, or once the deadline has passed, and otherwise reads more. (This
/// server's codec never reports a body over its limit here; such a parse is
/// taken as invalid.)
pub fn head_step(parse: HeadParse, buffered: usize, deadline_passed: bool) -> (s: HeadStep)
    ensures
        s == match parse {
            HeadParse::Complete => HeadStep::Parsed,
            HeadParse::Incomplete => if buffered >= MAX_HEADER_BUF {
                HeadStep::Fail(HeadError::TooLarge)
            } else if deadline_passed {
                HeadStep::Fail(HeadError::Timeout)
            } else {
                HeadStep::ReadMore
            },
            _ => HeadStep::Fail(HeadError::Invalid),
        },
{
    match parse {
        HeadParse::Complete => HeadStep::Parsed,
        HeadParse::Incomplete => {
            if headers_too_large(buffered) {
                HeadStep::Fail(HeadError::TooLarge)
            } else if deadline_passed {
                HeadStep::Fail(HeadError::Timeout)
            } else {
                HeadStep::ReadMore
            }
        },
        _ => HeadStep::Fail(HeadError::Invalid),
    }
}

/// What a read of head bytes means: new bytes go on; the end of the stream
/// is a clean close when nothing was buffered and an unexpected end
/// otherwise; a timed-out or failed read stops.
pub fn head_after_read(read: ReadOutcome, buffered: usize) -> (e: Option<HeadError>)
    ensures
        e == match read {
            ReadOutcome::Data(n) => if n > 0 {
                None
            } else if buffered == 0 {
                Some(HeadError::Closed)
            } else {
                Some(HeadError::UnexpectedEof)
            },
            ReadOutcome::TimedOut => Some(HeadError::Timeout),
            ReadOutcome::Failed => Some(HeadError::Io),
        },
{
    match read {
        ReadOutcome::Data(n) => {
            if n > 0 {
                None
            } else if buffered == 0 {
                Some(HeadError::Closed)
            } else {
                Some(HeadError::UnexpectedEof)
            }
        },
        ReadOutcome::TimedOut => Some(HeadError::Timeout),
        ReadOutcome::Failed => Some(HeadError::Io),
    }
}

/// Every head error but a clean close is answered `400 Bad Request` before
/// the connection closes.
pub fn answers_bad_request(e: HeadError) -> (b: bool)
    ensures
        b == (e != HeadError::Closed),
{
    !matches!(e, HeadError::Closed)
}

/// What to do next while reading a request head on a server that answers a
/// refused head itself.
#[derive(Clone, Debug, PartialEq, Eq)]
pub enum HeadDecision {
    /// Use the parsed head.
    Parsed,
    /// Read more bytes.
    ReadMore,
    /// Answer with this status and message, then close.
    Reject { status: u16, message: String },
    /// Close without an answer.
    GiveUp,
}

/// The answer to a refused head: its status and message.
pub open spec fn head_rejection(parse: HeadParse, buffered: usize, limit: usize) -> Option<
    (u16, Seq<char>),
> {
    match parse {
        HeadParse::Complete => None,
        HeadParse::Incomplete => if buffered >= limit {
            Some((400u16, "request headers too large"@))
        } else {
            None
        },
        HeadParse::Invalid => Some((400u16, "bad request"@)),
        HeadParse::BodyTooLarge => Some((413u16, "payload too large"@)),
    }
}

/// The next step of reading a head on a server that answers a refused head
/// itself, given the codec's buffer limit: a complete head is used; a refused
/// one is answered (see [`head_rejection`]); an incomplete one within the
/// limit is read further, unless the deadline has passed, when the
/// connection closes without an answer.
pub fn request_head_step(parse: HeadParse, buffered: usize, limit: usize, deadline_passed: bool) -> (d:
    HeadDecision)
    ensures
        match head_rejection(parse, buffered, limit) {
            Some((status, message)) => d matches HeadDecision::Reject { status: s, message: m } && s
                == status && m@ == message,
            None => d == if parse == HeadParse::Complete {
                HeadDecision::Parsed
            } else if deadline_passed {
                HeadDecision::GiveUp
            } else {
                HeadDecision::ReadMore
            },
        },
{
    match parse {
        HeadParse::Complete => HeadDecision::Parsed,
        HeadParse::Incomplete => {
            if buffered >= limit {
                HeadDecision::Reject { status: 400, message: to_string("request headers too large") }
            } else if deadline_passed {
                HeadDecision::GiveUp
            } else {
                HeadDecision::ReadMore
            }
        },
        HeadParse::Invalid => HeadDecision::Reject { status: 400, message: to_string("bad request") },
        HeadParse::BodyTooLarge => HeadDecision::Reject {
            status: 413,
            message: to_string("payload too large"),
        },
    }
}

/// On a server that answers a refused head itself, reading goes on only
/// after a read that brought bytes; the end of the stream, a timeout or a
/// failed read close the connection without an answer.
pub fn head_read_continues(read: ReadOutcome) -> (b: bool)
    ensures
        b == (read matches ReadOutcome::Data(n) && n > 0),
{
    match read {
        ReadOutcome::Data(n) => n > 0,
        _ => false,
    }
}

/// How a request body is read.
#[derive(Clone, Copy, Debug, PartialEq, Eq)]
pub enum BodyPlan {
    /// Decode chunks until the last one.
    Chunked,
    /// There is no body.
    Empty,
    /// Read exactly this many bytes.
    Length(usize),
}

/// The body's plan: chunked when the head says so; otherwise the declared
/// length (as a `usize`), where none or 0 means no body.
pub fn body_plan(content_length: Option<u64>, chunked: bool) -> (p: BodyPlan)
    ensures
        p == if chunked {
            BodyPlan::Chunked
        } else {
            match content_length {
                Some(n) => if n == 0 {
                    BodyPlan::Empty
                } else {
                    BodyPlan::Length(n as usize)
                },
                None => BodyPlan::Empty,
            }
        },
{
    if chunked {
        return BodyPlan::Chunked;
    }
    match content_length {
        Some(n) => {
            if n == 0 {
                BodyPlan::Empty
            } else {
                BodyPlan::Length(n as usize)
            }
        },
        None => BodyPlan::Empty,
    }
}

/// How many bytes the next read of a `length`-byte body asks for, with
/// `buffered` of it already held: what is missing, at most
/// [`BODY_READ_MAX`].
pub fn body_read_size(length: usize, buffered: usize) -> (n: usize)
    requires
        buffered < length,
    ensures
        n == if length - buffered < BODY_READ_MAX {
            (length - buffered) as usize
        } else {
            BODY_READ_MAX
        },
        0 < n <= BODY_READ_MAX,
        buffered + n <= length,
{
    let needed = length - buffered;
    if needed < BODY_READ_MAX {
        needed
    } else {
        BODY_READ_MAX
    }
}

/// What to do next while decoding a chunked body.
#[derive(Clone, Copy, Debug, PartialEq, Eq)]
pub enum ChunkedStep {
    /// The body is complete and within the limit.
    Done,
    /// The decoded body exceeds the limit.
    TooLarge,
    /// Read more bytes.
    ReadMore,
}

/// The next step of a chunked body, from the length of the body decoded so
/// far (none while the last chunk is missing) and the limit (0: unlimited).
pub fn chunked_step(decoded: Option<usize>, max_body: usize) -> (s: ChunkedStep)
    ensures
        s == match decoded {
            Some(len) => if max_body > 0 && len > max_body {
                ChunkedStep::TooLarge
            } else {
                ChunkedStep::Done
            },
            None => ChunkedStep::ReadMore,
        },
{
    match decoded {
        Some(len) => {
            if body_exceeds_limit(max_body, len) {
                ChunkedStep::TooLarge
            } else {
                ChunkedStep::Done
            }
        },
        None => ChunkedStep::ReadMore,
    }
}

/// Prepare a response's headers for the wire: a connection that is not kept
/// alive gets `Connection: close`; the body is sent chunked exactly when the
/// response declares no `Content-Length`. Returns whether it is chunked.
pub fn prepare_response_head(headers: &mut HeaderMap, keep_alive: bool) -> (chunked: bool)
    ensures
        final(headers).map() == if keep_alive {
            old(headers).map()
        } else {
            header_set(old(headers).map(), "connection"@, "close"@)
        },
        chunked == header_lookup(final(headers).map(), "content-length"@) is None,
{
    if !keep_alive {
        headers.insert("connection", "close");
    }
    !headers.contains_key("content-length")
}

} // verus!
