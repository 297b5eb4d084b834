//! The token lifecycle state machine: from what the store holds and the
//! current time, decide whether to reuse the stored access token,
//! refresh, or run the full authorization flow. The surrounding process
//! performs the I/O each decision calls for and feeds the results back
//! into the verified constructors of `exchange`.

use vstd::prelude::*;
use crate::credential::{spec_is_stale, AuthToken};

verus! {

/// The state the manager finds the store in.
#[derive(Debug, Clone, Copy, PartialEq, Eq, Structural)]
pub enum TokenState {
    /// No parseable credential on disk: a fresh authorization flow is
    /// needed.
    NoCredential,
    /// A credential is present and not within the safety margin of
    /// expiry.
    Fresh,
    /// A credential is present but expired, or within the safety margin
    /// of expiry.
    Stale,
}

/// The single step the manager decides on for one invocation.
#[derive(Debug, Clone, PartialEq, Eq)]
pub enum TokenPlan {
    /// Return the stored access token; no network call.
    UseStored { access_token: String },
    /// Exchange the stored refresh token for a fresh credential, then
    /// persist it.
    Refresh { refresh_token: String },
    /// Run PKCE, the browser, the callback listener and the code
    /// exchange, then persist the credential.
    Authorize,
}

/// Classifies what the store held at time `now`: absent, fresh, or
/// stale — stale exactly when `now >= expires_at - 60`.
pub fn classify(loaded: &Option<AuthToken>, now: u64) -> (s: TokenState)
    ensures
        match loaded {
            Option::None => s == TokenState::NoCredential,
            Option::Some(c) => s == (if spec_is_stale(now, c.expires_at) {
                TokenState::Stale
            } else {
                TokenState::Fresh
            }),
        },
{
    match loaded {
        Option::None => TokenState::NoCredential,
        Option::Some(c) => if c.is_stale_at(now) {
            TokenState::Stale
        } else {
            TokenState::Fresh
        },
    }
}

/// Decides the invocation's one step from what the store held at time
/// `now`: absent → full authorization; stale → refresh with the stored
/// refresh token, with no browser or listener interaction; fresh →
/// return the stored access token, with no network call.
pub fn plan_next(loaded: &Option<AuthToken>, now: u64) -> (p: TokenPlan)
    ensures
        match loaded {
            Option::None => p == TokenPlan::Authorize,
            Option::Some(c) => if spec_is_stale(now, c.expires_at) {
                p matches TokenPlan::Refresh { refresh_token } && refresh_token@
                    == c.refresh_token@
            } else {
                p matches TokenPlan::UseStored { access_token } && access_token@
                    == c.access_token@
            },
        },
{
    match loaded {
        Option::None => TokenPlan::Authorize,
        Option::Some(c) => if c.is_stale_at(now) {
            TokenPlan::Refresh { refresh_token: c.refresh_token.clone() }
        } else {
            TokenPlan::UseStored { access_token: c.access_token.clone() }
        },
    }
}

} // verus!
