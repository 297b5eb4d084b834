use spotifyfetch::codec::{auth_token_from_json, auth_token_to_json};
use spotifyfetch::text::u64_to_string;
use spotifyfetch::AuthToken;

fn sample() -> AuthToken {
    AuthToken {
        access_token: "BQDa3xF0-access".to_string(),
        refresh_token: "AQCx9_refresh".to_string(),
        expires_at: 1700000000,
    }
}

#[test]
fn round_trip_returns_the_same_credential() {
    let c = sample();
    let json = auth_token_to_json(&c).unwrap();
    let back = auth_token_from_json(&json).unwrap();
    assert_eq!(back, c);
}

#[test]
fn round_trip_at_extremes() {
    let c = AuthToken {
        access_token: String::new(),
        refresh_token: "r".to_string(),
        expires_at: u64::MAX,
    };
    let json = auth_token_to_json(&c).unwrap();
    assert_eq!(auth_token_from_json(&json).unwrap(), c);
    let z = AuthToken {
        access_token: "a".to_string(),
        refresh_token: String::new(),
        expires_at: 0,
    };
    let json = auth_token_to_json(&z).unwrap();
    assert_eq!(auth_token_from_json(&json).unwrap(), z);
}

#[test]
fn serialized_form_is_valid_json_for_serde() {
    let c = sample();
    let json = auth_token_to_json(&c).unwrap();
    let v: serde_json::Value = serde_json::from_str(&json).unwrap();
    assert_eq!(v.get("access_token").unwrap().as_str().unwrap(), "BQDa3xF0-access");
    assert_eq!(v.get("refresh_token").unwrap().as_str().unwrap(), "AQCx9_refresh");
    assert_eq!(v.get("expires_in"), None);
    assert_eq!(v.get("expires_at").unwrap().as_u64().unwrap(), 1700000000);
}

#[test]
fn pretty_printed_document_loads() {
    let json = "{\n  \"access_token\": \"a1\",\n  \"refresh_token\": \"r1\",\n  \"expires_at\": 42\n}";
    let c = auth_token_from_json(json).unwrap();
    assert_eq!(c.access_token, "a1");
    assert_eq!(c.refresh_token, "r1");
    assert_eq!(c.expires_at, 42);
}

#[test]
fn corrupt_documents_are_rejected() {
    assert!(auth_token_from_json("").is_none());
    assert!(auth_token_from_json("{}").is_none());
    assert!(auth_token_from_json("not json").is_none());
    assert!(auth_token_from_json("{\"access_token\":\"a\",\"refresh_token\":\"r\"}").is_none());
    assert!(auth_token_from_json(
        "{\"access_token\":\"a\",\"refresh_token\":\"r\",\"expires_at\":1}x"
    )
    .is_none());
    assert!(auth_token_from_json(
        "{\"access_token\":\"a\\nb\",\"refresh_token\":\"r\",\"expires_at\":1}"
    )
    .is_none());
    assert!(auth_token_from_json(
        "{\"access_token\":\"a\",\"refresh_token\":\"r\",\"expires_at\":99999999999999999999}"
    )
    .is_none());
}

#[test]
fn unsafe_tokens_are_not_serialized() {
    let c = AuthToken {
        access_token: "has\"quote".to_string(),
        refresh_token: "ok".to_string(),
        expires_at: 1,
    };
    assert!(auth_token_to_json(&c).is_none());
    let d = AuthToken {
        access_token: "ok".to_string(),
        refresh_token: "has\\slash".to_string(),
        expires_at: 1,
    };
    assert!(auth_token_to_json(&d).is_none());
}

#[test]
fn decimal_rendering_is_exact() {
    assert_eq!(u64_to_string(0), "0");
    assert_eq!(u64_to_string(7), "7");
    assert_eq!(u64_to_string(1700000000), "1700000000");
    assert_eq!(u64_to_string(u64::MAX), "18446744073709551615");
}
