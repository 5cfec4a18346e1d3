//! Typed I/O operations.
//!
//! Each operation owns its buffer until the kernel is done with it. An
//! operation's outcome is stored once the completion arrives; polling hands
//! it out exactly once and reports "not ready" until then.
//!
//! File descriptors are the kernel's `int` (`RawFd` on Linux).
use vstd::prelude::*;

use crate::meguri::error::MeguriResult;

verus! {

#[verifier::external_type_specification]
#[verifier::external_body]
pub struct ExBytes(bytes::Bytes);

#[verifier::external_type_specification]
#[verifier::external_body]
pub struct ExBytesMut(bytes::BytesMut);

/// Cancel result.
#[derive(Debug, PartialEq, Eq, Structural)]
pub enum CancelResult {
    Cancelled,
    AlreadyStarted,
    NotFound,
}

/// A pending cancel operation.
pub struct Cancel {
    target_user_data: u64,
    result: Option<MeguriResult<CancelResult>>,
}

impl Cancel {
    /// The `user_data` of the operation to cancel.
    pub closed spec fn target(&self) -> u64 {
        self.target_user_data
    }

    /// The stored outcome, if the completion has arrived.
    pub closed spec fn outcome(&self) -> Option<MeguriResult<CancelResult>> {
        self.result
    }

    pub fn new(target_user_data: u64) -> (c: Self)
        ensures
            c.target() == target_user_data,
            c.outcome() is None,
    {
        Cancel { target_user_data, result: None }
    }

    /// One poll: the stored outcome if there is one (and it is taken), else
    /// `None` for "pending".
    pub fn poll_ready(&mut self) -> (r: Option<MeguriResult<CancelResult>>)
        ensures
            r == old(self).outcome(),
            final(self).outcome() is None,
            final(self).target() == old(self).target(),
    {
        self.result.take()
    }
}

/// A pending timeout operation.
pub struct Timeout {
    duration: std::time::Duration,
    user_data: Option<u64>,
    result: Option<MeguriResult<()>>,
}

impl Timeout {
    /// How long the timeout waits.
    pub closed spec fn duration(&self) -> std::time::Duration {
        self.duration
    }

    /// The `user_data` the operation was submitted with, once submitted.
    pub closed spec fn submitted_as(&self) -> Option<u64> {
        self.user_data
    }

    /// The stored outcome, if the completion has arrived.
    pub closed spec fn outcome(&self) -> Option<MeguriResult<()>> {
        self.result
    }

    pub fn new(duration: std::time::Duration) -> (t: Self)
        ensures
            t.duration() == duration,
            t.submitted_as() is None,
            t.outcome() is None,
    {
        Timeout { duration, user_data: None, result: None }
    }

    /// One poll: the stored outcome if there is one (and it is taken), else
    /// `None` for "pending".
    pub fn poll_ready(&mut self) -> (r: Option<MeguriResult<()>>)
        ensures
            r == old(self).outcome(),
            final(self).outcome() is None,
            final(self).duration() == old(self).duration(),
            final(self).submitted_as() == old(self).submitted_as(),
    {
        self.result.take()
    }
}

/// A pending read operation.
///
/// The operation owns the read buffer. If the future is dropped before
/// completion, the buffer goes to the reclaim pool and is not freed until the
/// kernel finishes.
pub struct Read {
    fd: i32,
    buf: bytes::BytesMut,
    offset: u64,
    user_data: Option<u64>,
    submitted: bool,
    result: Option<MeguriResult<(bytes::BytesMut, usize)>>,
}

impl Read {
    pub closed spec fn fd(&self) -> i32 {
        self.fd
    }

    pub closed spec fn buffer(&self) -> bytes::BytesMut {
        self.buf
    }

    pub closed spec fn offset(&self) -> u64 {
        self.offset
    }

    pub closed spec fn submitted_as(&self) -> Option<u64> {
        self.user_data
    }

    pub closed spec fn is_submitted(&self) -> bool {
        self.submitted
    }

    pub closed spec fn outcome(&self) -> Option<MeguriResult<(bytes::BytesMut, usize)>> {
        self.result
    }

    /// Create a new read operation.
    pub fn new(fd: i32, buf: bytes::BytesMut, offset: u64) -> (r: Self)
        ensures
            r.fd() == fd,
            r.buffer() == buf,
            r.offset() == offset,
            r.submitted_as() is None,
            !r.is_submitted(),
            r.outcome() is None,
    {
        Read { fd, buf, offset, user_data: None, submitted: false, result: None }
    }

    /// One poll: the stored outcome if there is one (and it is taken), else
    /// `None` for "pending".
    pub fn poll_ready(&mut self) -> (r: Option<MeguriResult<(bytes::BytesMut, usize)>>)
        ensures
            r == old(self).outcome(),
            final(self).outcome() is None,
            final(self).fd() == old(self).fd(),
            final(self).offset() == old(self).offset(),
            final(self).submitted_as() == old(self).submitted_as(),
            final(self).is_submitted() == old(self).is_submitted(),
    {
        self.result.take()
    }
}

/// A pending write operation. Owns the write buffer until completion.
pub struct Write {
    fd: i32,
    buf: bytes::Bytes,
    offset: u64,
    user_data: Option<u64>,
    submitted: bool,
    result: Option<MeguriResult<usize>>,
}

impl Write {
    pub closed spec fn fd(&self) -> i32 {
        self.fd
    }

    pub closed spec fn buffer(&self) -> bytes::Bytes {
        self.buf
    }

    pub closed spec fn offset(&self) -> u64 {
        self.offset
    }

    pub closed spec fn submitted_as(&self) -> Option<u64> {
        self.user_data
    }

    pub closed spec fn is_submitted(&self) -> bool {
        self.submitted
    }

    pub closed spec fn outcome(&self) -> Option<MeguriResult<usize>> {
        self.result
    }

    pub fn new(fd: i32, buf: bytes::Bytes, offset: u64) -> (w: Self)
        ensures
            w.fd() == fd,
            w.buffer() == buf,
            w.offset() == offset,
            w.submitted_as() is None,
            !w.is_submitted(),
            w.outcome() is None,
    {
        Write { fd, buf, offset, user_data: None, submitted: false, result: None }
    }

    /// One poll: the stored outcome if there is one (and it is taken), else
    /// `None` for "pending".
    pub fn poll_ready(&mut self) -> (r: Option<MeguriResult<usize>>)
        ensures
            r == old(self).outcome(),
            final(self).outcome() is None,
            final(self).fd() == old(self).fd(),
            final(self).offset() == old(self).offset(),
            final(self).submitted_as() == old(self).submitted_as(),
            final(self).is_submitted() == old(self).is_submitted(),
    {
        self.result.take()
    }
}

/// A pending recv operation.
pub struct Recv {
    fd: i32,
    buf: bytes::BytesMut,
    flags: u32,
    user_data: Option<u64>,
    result: Option<MeguriResult<(bytes::BytesMut, usize)>>,
}

impl Recv {
    pub closed spec fn fd(&self) -> i32 {
        self.fd
    }

    pub closed spec fn buffer(&self) -> bytes::BytesMut {
        self.buf
    }

    pub closed spec fn flags(&self) -> u32 {
        self.flags
    }

    pub closed spec fn submitted_as(&self) -> Option<u64> {
        self.user_data
    }

    pub closed spec fn outcome(&self) -> Option<MeguriResult<(bytes::BytesMut, usize)>> {
        self.result
    }

    pub fn new(fd: i32, buf: bytes::BytesMut, flags: u32) -> (r: Self)
        ensures
            r.fd() == fd,
            r.buffer() == buf,
            r.flags() == flags,
            r.submitted_as() is None,
            r.outcome() is None,
    {
        Recv { fd, buf, flags, user_data: None, result: None }
    }

    /// One poll: the stored outcome if there is one (and it is taken), else
    /// `None` for "pending".
    pub fn poll_ready(&mut self) -> (r: Option<MeguriResult<(bytes::BytesMut, usize)>>)
        ensures
            r == old(self).outcome(),
            final(self).outcome() is None,
            final(self).fd() == old(self).fd(),
            final(self).flags() == old(self).flags(),
            final(self).submitted_as() == old(self).submitted_as(),
    {
        self.result.take()
    }
}

/// A pending send operation.
pub struct Send {
    fd: i32,
    buf: bytes::Bytes,
    flags: u32,
    user_data: Option<u64>,
    result: Option<MeguriResult<usize>>,
}

impl Send {
    pub closed spec fn fd(&self) -> i32 {
        self.fd
    }

    pub closed spec fn buffer(&self) -> bytes::Bytes {
        self.buf
    }

    pub closed spec fn flags(&self) -> u32 {
        self.flags
    }

    pub closed spec fn submitted_as(&self) -> Option<u64> {
        self.user_data
    }

    pub closed spec fn outcome(&self) -> Option<MeguriResult<usize>> {
        self.result
    }

    pub fn new(fd: i32, buf: bytes::Bytes, flags: u32) -> (s: Self)
        ensures
            s.fd() == fd,
            s.buffer() == buf,
            s.flags() == flags,
            s.submitted_as() is None,
            s.outcome() is None,
    {
        Send { fd, buf, flags, user_data: None, result: None }
    }

    /// One poll: the stored outcome if there is one (and it is taken), else
    /// `None` for "pending".
    pub fn poll_ready(&mut self) -> (r: Option<MeguriResult<usize>>)
        ensures
            r == old(self).outcome(),
            final(self).outcome() is None,
            final(self).fd() == old(self).fd(),
            final(self).flags() == old(self).flags(),
            final(self).submitted_as() == old(self).submitted_as(),
    {
        self.result.take()
    }
}

} // verus!
