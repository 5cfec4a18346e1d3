//! Error types.
use vstd::prelude::*;

use crate::text::{push_str, to_string};

verus! {

#[verifier::external_type_specification]
#[verifier::external_body]
pub struct ExIoError(std::io::Error);

/// A meguri error.
#[derive(Debug)]
pub enum MeguriError {
    /// An I/O error from a syscall.
    Io(std::io::Error),
    /// The submission queue is full.
    SqFull,
    /// An operation was cancelled by the kernel.
    Cancelled,
    /// Invalid argument.
    InvalidArgument(&'static str),
}

/// Result type for meguri operations.
pub type MeguriResult<T> = Result<T, MeguriError>;

/// The text of every error but `Io`, whose text also holds the OS's words.
pub open spec fn error_text(e: MeguriError) -> Seq<char> {
    match e {
        MeguriError::Io(_) => "io_uring error: "@,
        MeguriError::SqFull => "submission queue is full"@,
        MeguriError::Cancelled => "operation was cancelled"@,
        MeguriError::InvalidArgument(msg) => "invalid argument: "@ + msg@,
    }
}

/// `<std::io::Error as Display>::fmt`, through `to_string`. The text comes
/// from the operating system and its locale, so nothing is stated of it.
#[verifier::external_body]
fn io_error_text(e: &std::io::Error) -> String {
    e.to_string()
}

impl MeguriError {
    /// The human-readable description of the error.
    ///
    /// For `Io` it is `io_uring error: ` followed by the I/O error's own text.
    pub fn message(&self) -> (s: String)
        ensures
            !(self is Io) ==> s@ == error_text(*self),
            self is Io ==> s@.len() >= error_text(*self).len()
                && s@.subrange(0, error_text(*self).len() as int) == error_text(*self),
    {
        match self {
            MeguriError::Io(e) => {
                let mut s = to_string("io_uring error: ");
                let detail = io_error_text(e);
                push_str(&mut s, detail.as_str());
                proof {
                    reveal_strlit("io_uring error: ");
                    assert(s@.subrange(0, error_text(*self).len() as int) =~= error_text(*self));
                }
                s
            },
            MeguriError::SqFull => to_string("submission queue is full"),
            MeguriError::Cancelled => to_string("operation was cancelled"),
            MeguriError::InvalidArgument(msg) => {
                let mut s = to_string("invalid argument: ");
                push_str(&mut s, msg);
                s
            },
        }
    }
}

impl From<std::io::Error> for MeguriError {
    fn from(e: std::io::Error) -> (r: Self) {
        MeguriError::Io(e)
    }
}

impl vstd::std_specs::convert::FromSpecImpl<std::io::Error> for MeguriError {
    open spec fn obeys_from_spec() -> bool {
        true
    }

    open spec fn from_spec(v: std::io::Error) -> Self {
        MeguriError::Io(v)
    }
}

} // verus!
