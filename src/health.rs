use vstd::prelude::*;

verus! {

/// Probe timeout used when none is configured, in milliseconds.
pub const DEFAULT_PROBE_TIMEOUT_MS: u64 = 3000;

/// A status code in the success class (2xx).
pub open spec fn success_status(code: u16) -> bool {
    200 <= code && code < 300
}

/// Whether an HTTP status code is in the success class.
pub fn is_success_status(code: u16) -> (r: bool)
    ensures
        r == success_status(code),
{
    200 <= code && code < 300
}

/// Verdict of a health probe. `outcome` is the status code of the response,
/// or `None` when no response came (refused, timed out, unresolvable).
/// Every failure is reported as unhealthy; the verdict never errs.
pub fn health_verdict(outcome: Option<u16>) -> (r: bool)
    ensures
        r == (outcome matches Some(code) && success_status(code)),
{
    match outcome {
        Some(code) => is_success_status(code),
        None => false,
    }
}

/// Timeout of a health probe in milliseconds: the configured one when it is
/// positive, the default otherwise. A probe is never left unbounded.
pub fn probe_timeout_ms(configured: Option<u64>) -> (r: u64)
    ensures
        r > 0,
        r == (match configured {
            Some(t) if t > 0 => t,
            _ => DEFAULT_PROBE_TIMEOUT_MS,
        }),
{
    match configured {
        Some(t) if t > 0 => t,
        _ => DEFAULT_PROBE_TIMEOUT_MS,
    }
}

} // verus!
