//! End-to-end walks of the lifecycle decisions, with the network and
//! the store simulated by plain values.

use spotifyfetch::callback::callback_code;
use spotifyfetch::codec::{auth_token_from_json, auth_token_to_json};
use spotifyfetch::exchange::{build_exchange_body, build_refresh_body, exchange_outcome, refresh_outcome};
use spotifyfetch::manager::{plan_next, TokenPlan};
use spotifyfetch::pkce::Auth;

#[test]
fn cold_start_flow() {
    // No file present: the manager decides on a full authorization.
    assert_eq!(plan_next(&None, 1000), TokenPlan::Authorize);

    // The authorization URL carries the challenge of the verifier and S256.
    let auth = Auth::new();
    let challenge = Auth::generate_code_challenge(&auth.code_verifier);
    assert!(auth.auth_url.contains("code_challenge_method=S256"));
    assert!(auth.auth_url.contains(&format!("code_challenge={}", challenge)));

    // The simulated callback delivers the code.
    let code = callback_code("/callback?code=ABC123").unwrap();
    assert_eq!(code, "ABC123");

    // The exchange request carries exactly that code and the verifier.
    let body = build_exchange_body(&code, &auth.code_verifier);
    assert!(body.contains("grant_type=authorization_code"));
    assert!(body.contains("&code=ABC123&"));
    assert!(body.contains(&format!("&code_verifier={}", auth.code_verifier)));

    // The provider's answer becomes the persisted credential.
    let response = "{\"access_token\":\"AT\",\"refresh_token\":\"RT\",\"expires_in\":3600}";
    let cred = exchange_outcome(200, response, 1000).unwrap();
    assert_eq!(cred.expires_at, 4600);
    let saved = auth_token_to_json(&cred).unwrap();
    assert_eq!(auth_token_from_json(&saved).unwrap(), cred);
}

#[test]
fn warm_refresh_flow() {
    let now = 50_000u64;
    let stored = spotifyfetch::AuthToken {
        access_token: "OLD-AT".to_string(),
        refresh_token: "RT-1".to_string(),
        expires_at: now - 10,
    };
    let saved = auth_token_to_json(&stored).unwrap();
    let loaded = auth_token_from_json(&saved);

    // The stored credential is stale: the manager refreshes directly,
    // with the stored refresh token — no browser, no listener.
    let plan = plan_next(&loaded, now);
    let refresh_token = match plan {
        TokenPlan::Refresh { refresh_token } => refresh_token,
        other => panic!("expected a refresh, got {:?}", other),
    };
    assert_eq!(refresh_token, "RT-1");

    let body = build_refresh_body(&refresh_token);
    assert!(body.contains("grant_type=refresh_token"));
    assert!(body.contains("&refresh_token=RT-1&"));

    let response = "{\"access_token\":\"NEW-AT\",\"expires_in\":3600}";
    let cred = refresh_outcome(200, response, &refresh_token, now).unwrap();
    assert_eq!(cred.access_token, "NEW-AT");
    assert_eq!(cred.refresh_token, "RT-1");
    assert_eq!(cred.expires_at, now + 3600);

    // The new credential is persisted over the old one.
    let saved2 = auth_token_to_json(&cred).unwrap();
    assert_eq!(auth_token_from_json(&saved2).unwrap(), cred);
}

#[test]
fn fresh_credential_is_used_unchanged() {
    let now = 50_000u64;
    let stored = spotifyfetch::AuthToken {
        access_token: "LIVE-AT".to_string(),
        refresh_token: "RT".to_string(),
        expires_at: now + 3600,
    };
    assert_eq!(
        plan_next(&Some(stored), now),
        TokenPlan::UseStored { access_token: "LIVE-AT".to_string() }
    );
}
