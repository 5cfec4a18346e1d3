//! What a load generator's request counts say of a run.
use vstd::prelude::*;

verus! {

/// The verdict on a run's request counts.
#[derive(Clone, Copy, Debug, PartialEq, Eq)]
pub enum CountsVerdict {
    /// Some requests succeeded and none failed.
    Passed,
    /// No request succeeded.
    NoSuccess,
    /// Some requests failed: how many, out of how many in all.
    Failed { failed: u64, total: u64 },
}

/// The verdict on counts the generator may or may not have reported: a
/// missing success or failure count is zero, and a missing total is their
/// sum. No success fails the run first; then any failure does.
pub open spec fn counts_verdict(
    successful: Option<u64>,
    failed: Option<u64>,
    total: Option<u64>,
) -> CountsVerdict {
    let s = successful.unwrap_or(0);
    let f = failed.unwrap_or(0);
    if s == 0 {
        CountsVerdict::NoSuccess
    } else if f > 0 {
        CountsVerdict::Failed { failed: f, total: total.unwrap_or((s + f) as u64) }
    } else {
        CountsVerdict::Passed
    }
}

/// Judge a run by its request counts (see [`counts_verdict`]).
pub fn validate_counts(successful: Option<u64>, failed: Option<u64>, total: Option<u64>) -> (v:
    CountsVerdict)
    requires
        successful.unwrap_or(0) + failed.unwrap_or(0) <= u64::MAX,
    ensures
        v == counts_verdict(successful, failed, total),
{
    let s = successful.unwrap_or(0);
    let f = failed.unwrap_or(0);
    let t = total.unwrap_or(s + f);
    if s == 0 {
        CountsVerdict::NoSuccess
    } else if f > 0 {
        CountsVerdict::Failed { failed: f, total: t }
    } else {
        CountsVerdict::Passed
    }
}

} // verus!
