//! Request timeouts.
//!
//! If the downstream handler chain does not complete within the configured
//! duration, the request is cancelled and a **408 Request Timeout** is
//! returned. The runtime races the chain against the clock; this module
//! holds the duration and decides the response from the race's outcome.
use vstd::prelude::*;
use vstd::string::StrSliceExecFns;

use crate::response::Response;

verus! {

/// Middleware that enforces a request timeout.
pub struct TimeoutMiddleware {
    duration: std::time::Duration,
}

/// Create a [`TimeoutMiddleware`] that aborts requests exceeding `duration`.
pub fn timeout_middleware(duration: std::time::Duration) -> (m: TimeoutMiddleware)
    ensures
        m.limit() == duration,
{
    TimeoutMiddleware { duration }
}

impl TimeoutMiddleware {
    /// The longest a request may take.
    pub closed spec fn limit(&self) -> std::time::Duration {
        self.duration
    }

    /// The duration the runtime races the handler chain against.
    pub fn duration(&self) -> (d: std::time::Duration)
        ensures
            d == self.limit(),
    {
        self.duration
    }

    /// The response for the race's outcome: the chain's own response when it
    /// finished in time (`Some`), else 408 with the body `request timeout`.
    pub fn finish(&self, outcome: Option<Response>) -> (r: Response)
        ensures
            outcome matches Some(resp) ==> r == resp,
            outcome is None ==> {
                &&& r.status_of() == 408
                &&& r.headers_of() == Map::<Seq<char>, Seq<char>>::empty()
                &&& r.body_of() == vstd::utf8::encode_utf8("request timeout"@)
            },
    {
        match outcome {
            Some(resp) => resp,
            None => Response::new(408, "request timeout".as_bytes_vec()),
        }
    }
}

} // verus!
