//! The persisted credential and its expiry predicate.

use vstd::prelude::*;

verus! {

/// Safety margin, in seconds, subtracted from the expiry instant: a
/// credential this close to expiry is already treated as stale, to absorb
/// clock skew and the latency of the API calls that will use it.
pub const EXPIRY_MARGIN_SECS: u64 = 60;

/// A bearer credential for the streaming service's API, as persisted on
/// disk between invocations.
#[derive(Debug, Clone, PartialEq, Eq)]
pub struct AuthToken {
    pub access_token: String,
    pub refresh_token: String,
    /// Absolute expiry instant, in seconds since the Unix epoch; always
    /// derived as issue time plus the provider-reported lifetime.
    pub expires_at: u64,
}

/// A credential with expiry instant `expires_at` is stale at time `now`
/// exactly when `now >= expires_at - 60`, in exact integer arithmetic.
pub open spec fn spec_is_stale(now: u64, expires_at: u64) -> bool {
    now as int >= expires_at as int - EXPIRY_MARGIN_SECS as int
}

/// Relies on `std::time::SystemTime::now`: the current time, read once,
/// converted to whole seconds since the Unix epoch; nothing can be
/// promised of its value.
#[verifier::external_body]
pub(crate) fn now_unix_seconds() -> u64 {
    std::time::SystemTime::now().duration_since(std::time::UNIX_EPOCH).map(
        |d| d.as_secs(),
    ).unwrap_or(0)
}

impl AuthToken {
    /// Expiry predicate against an explicit clock reading: stale exactly
    /// when `now >= expires_at - 60`.
    pub fn is_stale_at(&self, now: u64) -> (r: bool)
        ensures
            r == spec_is_stale(now, self.expires_at),
    {
        if self.expires_at <= EXPIRY_MARGIN_SECS {
            true
        } else {
            now >= self.expires_at - EXPIRY_MARGIN_SECS
        }
    }

    /// Expiry against the system clock, read at the moment of the call;
    /// the classification for any one clock reading is `is_stale_at`.
    pub fn is_expired(&self) -> bool {
        let now = now_unix_seconds();
        self.is_stale_at(now)
    }
}

} // verus!
