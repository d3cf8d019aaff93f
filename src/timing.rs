use vstd::prelude::*;

use crate::error::AuthenticateError;

verus! {

/// Nanoseconds in one second.
pub const NANOS_PER_SEC: u64 = 1_000_000_000;

/// A span of time, or a point in time measured from the Unix epoch, as
/// whole seconds plus nanoseconds.
#[derive(Debug, Clone, Copy, PartialEq, Eq, Structural)]
pub struct TimeSpan {
    pub secs: u64,
    pub nanos: u32,
}

impl TimeSpan {
    /// The span in nanoseconds.
    pub open spec fn view(self) -> int {
        self.secs * NANOS_PER_SEC + self.nanos
    }

    /// A span of whole seconds.
    pub fn from_secs(secs: u64) -> (r: TimeSpan)
        ensures
            r.secs == secs,
            r.nanos == 0,
            r@ == secs * NANOS_PER_SEC,
    {
        TimeSpan { secs, nanos: 0 }
    }

    /// The span in nanoseconds, exactly.
    pub fn as_nanos(&self) -> (r: u128)
        ensures
            r == self@,
            r < 0x1_0000_0000_0000_0000_0000_0000,
    {
        proof {
            let s = self.secs as int;
            assert(s * 1_000_000_000 <= 0xFFFF_FFFF_FFFF_FFFF * 1_000_000_000) by (nonlinear_arith)
                requires
                    0 <= s <= 0xFFFF_FFFF_FFFF_FFFF,
            ;
        }
        self.secs as u128 * NANOS_PER_SEC as u128 + self.nanos as u128
    }
}

/// How an expiry that lies too far in the future is reported.
#[derive(Debug, Clone, Copy, PartialEq, Eq, Structural)]
pub enum FutureExpiryPolicy {
    /// Report it as `Expired`, like an expiry in the past.
    FoldIntoExpired,
    /// Report it as `LongValidity`.
    ReportLongValidity,
}

/// What the freshness check decides for the given times, in nanoseconds.
pub open spec fn freshness_outcome(expires: int, now: int, max_window: int, policy: FutureExpiryPolicy) -> Result<(), AuthenticateError> {
    if now > expires {
        Err(AuthenticateError::Expired)
    } else if expires > now + max_window {
        match policy {
            FutureExpiryPolicy::FoldIntoExpired => Err(AuthenticateError::Expired),
            FutureExpiryPolicy::ReportLongValidity => Err(AuthenticateError::LongValidity),
        }
    } else {
        Ok(())
    }
}

/// Checks that `expires` lies between `now` and `now + max_window`, both
/// bounds included.
pub fn check_freshness(expires: TimeSpan, now: TimeSpan, max_window: TimeSpan, policy: FutureExpiryPolicy) -> (r: Result<(), AuthenticateError>)
    ensures
        r == freshness_outcome(expires@, now@, max_window@, policy),
{
    let e = expires.as_nanos();
    let n = now.as_nanos();
    let w = max_window.as_nanos();
    if n > e {
        Err(AuthenticateError::Expired)
    } else if e > n + w {
        match policy {
            FutureExpiryPolicy::FoldIntoExpired => Err(AuthenticateError::Expired),
            FutureExpiryPolicy::ReportLongValidity => Err(AuthenticateError::LongValidity),
        }
    } else {
        Ok(())
    }
}

/// An expiry equal to `now` is still fresh, one nanosecond earlier is
/// expired; an expiry of exactly `now + max_window` is fresh, one nanosecond
/// later is refused.
pub proof fn lemma_freshness_boundaries(now: int, max_window: int, policy: FutureExpiryPolicy)
    requires
        0 <= max_window,
    ensures
        freshness_outcome(now, now, max_window, policy) is Ok,
        freshness_outcome(now - 1, now, max_window, policy) == Err::<(), AuthenticateError>(AuthenticateError::Expired),
        freshness_outcome(now + max_window, now, max_window, policy) is Ok,
        freshness_outcome(now + max_window + 1, now, max_window, policy) is Err,
{
}

} // verus!
