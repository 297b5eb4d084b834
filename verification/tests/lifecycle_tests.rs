use spotifyfetch::exchange::{
    build_exchange_body, build_refresh_body, exchange_outcome, refresh_outcome,
};
use spotifyfetch::manager::{classify, plan_next, TokenPlan, TokenState};
use spotifyfetch::{AuthError, AuthToken};

fn stored(expires_at: u64) -> AuthToken {
    AuthToken {
        access_token: "ACCESS".to_string(),
        refresh_token: "REFRESH".to_string(),
        expires_at,
    }
}

#[test]
fn expiry_boundary_is_stale() {
    let t = 10_000u64;
    let c = stored(t);
    assert!(!c.is_stale_at(t - 61));
    assert!(c.is_stale_at(t - 60));
    assert!(c.is_stale_at(t));
    assert!(c.is_stale_at(t + 1));
}

#[test]
fn classification_matches_expiry() {
    let t = 10_000u64;
    assert_eq!(classify(&None, t), TokenState::NoCredential);
    assert_eq!(classify(&Some(stored(t)), t - 61), TokenState::Fresh);
    assert_eq!(classify(&Some(stored(t)), t - 60), TokenState::Stale);
}

#[test]
fn small_expiry_is_always_stale() {
    let c = stored(59);
    assert!(c.is_stale_at(0));
}

#[test]
fn plan_for_each_state() {
    let t = 10_000u64;
    assert_eq!(plan_next(&None, t), TokenPlan::Authorize);
    assert_eq!(
        plan_next(&Some(stored(t)), t - 61),
        TokenPlan::UseStored { access_token: "ACCESS".to_string() }
    );
    assert_eq!(
        plan_next(&Some(stored(t)), t - 60),
        TokenPlan::Refresh { refresh_token: "REFRESH".to_string() }
    );
}

#[test]
fn exchange_body_is_exact() {
    let body = build_exchange_body("ABC123", "VERIF-ier");
    assert_eq!(
        body,
        "grant_type=authorization_code&code=ABC123\
         &redirect_uri=http%3A%2F%2Flocalhost%3A8888%2Fcallback\
         &client_id=ebdbdb22841c48648acf563e594d928e&code_verifier=VERIF-ier"
    );
}

#[test]
fn refresh_body_is_exact() {
    let body = build_refresh_body("RT/1+x");
    assert_eq!(
        body,
        "grant_type=refresh_token&refresh_token=RT%2F1%2Bx\
         &client_id=ebdbdb22841c48648acf563e594d928e"
    );
}

#[test]
fn exchange_success_builds_credential() {
    let body = "{\"access_token\":\"AT\",\"token_type\":\"Bearer\",\"scope\":\"user-top-read\",\"expires_in\":3600,\"refresh_token\":\"RT\"}";
    let c = exchange_outcome(200, body, 1000).unwrap();
    assert_eq!(c.access_token, "AT");
    assert_eq!(c.refresh_token, "RT");
    assert_eq!(c.expires_at, 4600);
}

#[test]
fn exchange_without_refresh_token_is_malformed() {
    let body = "{\"access_token\":\"AT\",\"expires_in\":3600}";
    assert_eq!(
        exchange_outcome(200, body, 0),
        Err(AuthError::MalformedResponse)
    );
}

#[test]
fn exchange_rejected_status_is_verbatim() {
    let r = exchange_outcome(400, "{\"error\":\"invalid_grant\"}", 0);
    assert_eq!(
        r,
        Err(AuthError::ApiRejected {
            status: 400,
            body: "{\"error\":\"invalid_grant\"}".to_string()
        })
    );
}

#[test]
fn refresh_keeps_previous_token_when_omitted() {
    let body = "{\"access_token\":\"AT2\",\"expires_in\":3600}";
    let c = refresh_outcome(200, body, "OLD-REFRESH", 500).unwrap();
    assert_eq!(c.access_token, "AT2");
    assert_eq!(c.refresh_token, "OLD-REFRESH");
    assert_eq!(c.expires_at, 4100);
}

#[test]
fn refresh_takes_rotated_token_when_present() {
    let body = "{\"access_token\":\"AT2\",\"refresh_token\":\"NEW\",\"expires_in\":60}";
    let c = refresh_outcome(200, body, "OLD", 0).unwrap();
    assert_eq!(c.refresh_token, "NEW");
}

#[test]
fn garbage_response_is_malformed() {
    assert_eq!(
        refresh_outcome(200, "<html>oops</html>", "OLD", 0),
        Err(AuthError::MalformedResponse)
    );
    assert_eq!(
        refresh_outcome(200, "{\"expires_in\":12}", "OLD", 0),
        Err(AuthError::MalformedResponse)
    );
}
