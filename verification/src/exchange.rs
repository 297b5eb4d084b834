//! The token exchanger's verified half: the form-encoded request bodies
//! sent to the provider's token endpoint, and the construction of a
//! credential from whatever the endpoint answered. The HTTP transport
//! itself stays outside the library; callers hand in the response status
//! and body.

use vstd::prelude::*;
use vstd::string::StringExecFns;
use crate::credential::AuthToken;
use crate::encoding::{form_urlencode, urlencode_of};
use crate::error::AuthError;

verus! {

/// The form-encoded body of an authorization-code exchange request.
pub open spec fn spec_exchange_body(code: Seq<char>, verifier: Seq<char>) -> Seq<char> {
    "grant_type=authorization_code&code="@ + urlencode_of(code) + "&redirect_uri="@
        + urlencode_of("http://localhost:8888/callback"@) + "&client_id="@ + urlencode_of(
        "ebdbdb22841c48648acf563e594d928e"@,
    ) + "&code_verifier="@ + urlencode_of(verifier)
}

/// The form-encoded body of a refresh request.
pub open spec fn spec_refresh_body(refresh_token: Seq<char>) -> Seq<char> {
    "grant_type=refresh_token&refresh_token="@ + urlencode_of(refresh_token) + "&client_id="@
        + urlencode_of("ebdbdb22841c48648acf563e594d928e"@)
}

/// Builds the body that exchanges an authorization code, together with
/// the PKCE verifier that proves possession.
pub fn build_exchange_body(code: &str, verifier: &str) -> (r: String)
    ensures
        r@ == spec_exchange_body(code@, verifier@),
{
    let mut body = String::new();
    body.append("grant_type=authorization_code&code=");
    body.append(form_urlencode(code).as_str());
    body.append("&redirect_uri=");
    body.append(form_urlencode("http://localhost:8888/callback").as_str());
    body.append("&client_id=");
    body.append(form_urlencode("ebdbdb22841c48648acf563e594d928e").as_str());
    body.append("&code_verifier=");
    body.append(form_urlencode(verifier).as_str());
    body
}

/// Builds the body that exchanges a refresh token.
pub fn build_refresh_body(refresh_token: &str) -> (r: String)
    ensures
        r@ == spec_refresh_body(refresh_token@),
{
    let mut body = String::new();
    body.append("grant_type=refresh_token&refresh_token=");
    body.append(form_urlencode(refresh_token).as_str());
    body.append("&client_id=");
    body.append(form_urlencode("ebdbdb22841c48648acf563e594d928e").as_str());
    body
}

/// The fields a token-endpoint response carries: the new access token,
/// possibly a new refresh token, and the lifetime in seconds.
pub struct TokenResponseFields {
    pub access_token: String,
    pub refresh_token: Option<String>,
    pub expires_in: u64,
}

/// The view of an optional string.
pub open spec fn opt_str_view(o: Option<String>) -> Option<Seq<char>> {
    match o {
        Some(s) => Some(s@),
        None => None,
    }
}

/// What parsing a token-endpoint response body yields: the access token,
/// the optional refresh token and the lifetime, or nothing when the body
/// is not JSON of that shape. A function of the body text alone.
pub uninterp spec fn token_fields_of(body: Seq<char>) -> Option<(Seq<char>, Option<Seq<char>>, u64)>;

/// Relies on `serde_json`: parses the body as JSON and reads the
/// `access_token` (string, required), `refresh_token` (string, taken
/// when present) and `expires_in` (unsigned integer, required) members
/// of the top-level object; what a given body yields depends on the body
/// text alone.
#[verifier::external_body]
pub(crate) fn parse_token_fields(body: &str) -> (r: Option<TokenResponseFields>)
    ensures
        match r {
            Some(f) => token_fields_of(body@) == Some(
                (f.access_token@, opt_str_view(f.refresh_token), f.expires_in),
            ),
            None => token_fields_of(body@) is None,
        },
{
    let v: serde_json::Value = match serde_json::from_str(body) {
        Ok(v) => v,
        Err(_) => return None,
    };
    let access_token = match v.get("access_token").and_then(|a| a.as_str()) {
        Some(s) => s.to_string(),
        None => return None,
    };
    let refresh_token = v.get("refresh_token").and_then(|a| a.as_str()).map(|s| s.to_string());
    let expires_in = match v.get("expires_in").and_then(|a| a.as_u64()) {
        Some(n) => n,
        None => return None,
    };
    Some(TokenResponseFields { access_token, refresh_token, expires_in })
}

/// The expiry instant derived from an issue time and a lifetime,
/// saturating at the largest representable instant.
pub open spec fn spec_expiry(now: u64, expires_in: u64) -> u64 {
    if now + expires_in > u64::MAX {
        u64::MAX
    } else {
        (now + expires_in) as u64
    }
}

fn expiry_at(now: u64, expires_in: u64) -> (r: u64)
    ensures
        r == spec_expiry(now, expires_in),
{
    if expires_in > u64::MAX - now {
        u64::MAX
    } else {
        now + expires_in
    }
}

/// Whether an HTTP status reports success.
pub open spec fn spec_status_ok(status: u16) -> bool {
    200 <= status < 300
}

/// The credential an authorization-code exchange yields from the token
/// endpoint's answer, issued at time `now`: on a success status whose
/// body carries all three fields — the refresh token is required on
/// first issuance — a credential expiring `expires_in` seconds from
/// `now`; a non-success status is rejected verbatim, and a body without
/// the required fields is malformed.
pub fn exchange_outcome(status: u16, body: &str, now: u64) -> (r: Result<AuthToken, AuthError>)
    ensures
        ({
            match r {
                Ok(c) => spec_status_ok(status) && (match token_fields_of(body@) {
                    Some(f) => c.access_token@ == f.0 && Some(c.refresh_token@) == f.1
                        && c.expires_at == spec_expiry(now, f.2),
                    None => false,
                }),
                Err(AuthError::ApiRejected { status: s, body: b }) => !spec_status_ok(status) && s
                    == status && b@ == body@,
                Err(AuthError::MalformedResponse) => spec_status_ok(status) && (match
                    token_fields_of(body@) {
                    Some(f) => f.1 is None,
                    None => true,
                }),
                Err(_) => false,
            }
        }),
{
    if !(status >= 200 && status < 300) {
        return Err(AuthError::ApiRejected { status, body: body.to_owned() });
    }
    match parse_token_fields(body) {
        None => Err(AuthError::MalformedResponse),
        Some(f) => match f.refresh_token {
            None => Err(AuthError::MalformedResponse),
            Some(rt) => Ok(
                AuthToken {
                    access_token: f.access_token,
                    refresh_token: rt,
                    expires_at: expiry_at(now, f.expires_in),
                },
            ),
        },
    }
}

/// The credential a refresh yields from the token endpoint's answer,
/// issued at time `now`. The provider may omit the refresh token, in
/// which case the one the request was made with is retained; everything
/// else is as in `exchange_outcome`.
pub fn refresh_outcome(status: u16, body: &str, previous_refresh: &str, now: u64) -> (r: Result<
    AuthToken,
    AuthError,
>)
    ensures
        ({
            match r {
                Ok(c) => spec_status_ok(status) && (match token_fields_of(body@) {
                    Some(f) => c.access_token@ == f.0 && c.expires_at == spec_expiry(now, f.2)
                        && (match f.1 {
                        Some(rt) => c.refresh_token@ == rt,
                        None => c.refresh_token@ == previous_refresh@,
                    }),
                    None => false,
                }),
                Err(AuthError::ApiRejected { status: s, body: b }) => !spec_status_ok(status) && s
                    == status && b@ == body@,
                Err(AuthError::MalformedResponse) => spec_status_ok(status) && token_fields_of(
                    body@,
                ) is None,
                Err(_) => false,
            }
        }),
{
    if !(status >= 200 && status < 300) {
        return Err(AuthError::ApiRejected { status, body: body.to_owned() });
    }
    match parse_token_fields(body) {
        None => Err(AuthError::MalformedResponse),
        Some(f) => {
            let refresh_token = match f.refresh_token {
                Some(rt) => rt,
                None => previous_refresh.to_owned(),
            };
            Ok(
                AuthToken {
                    access_token: f.access_token,
                    refresh_token,
                    expires_at: expiry_at(now, f.expires_in),
                },
            )
        },
    }
}

} // verus!
