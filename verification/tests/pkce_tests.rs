use base64::Engine;
use sha2::Digest;
use spotifyfetch::pkce::Auth;
use spotifyfetch::text::bytes_to_hex;

#[test]
fn challenge_matches_sha256_base64url() {
    let verifier = "dBjftJeZ4CVP-mB92K27uhbUJU1p1r_wW1gFWFOEjXk";
    let digest = sha2::Sha256::digest(verifier.as_bytes());
    let expected = base64::engine::general_purpose::URL_SAFE_NO_PAD.encode(digest);
    let challenge = Auth::generate_code_challenge(verifier);
    assert_eq!(challenge, expected);
}

#[test]
fn challenge_known_vector() {
    // Appendix B of RFC 7636: the S256 challenge of this verifier.
    let verifier = "dBjftJeZ4CVP-mB92K27uhbUJU1p1r_wW1gFWFOEjXk";
    let challenge = Auth::generate_code_challenge(verifier);
    assert_eq!(challenge, "E9Melhoa2OwvFrEMTJguCHaoeK1t8URWbuGJSstw-cM");
}

#[test]
fn challenge_is_deterministic() {
    let a = Auth::generate_code_challenge("some-verifier");
    let b = Auth::generate_code_challenge("some-verifier");
    assert_eq!(a, b);
}

#[test]
fn sha256_known_digest() {
    let digest = sha2::Sha256::digest(b"abc");
    assert_eq!(
        bytes_to_hex(&digest),
        "ba7816bf8f01cfea414140de5dae2223b00361a396177a9cb410ff61f20015ad"
    );
}

#[test]
fn verifier_is_43_chars_and_distinct() {
    let a = Auth::generate_code_verifier();
    let b = Auth::generate_code_verifier();
    assert_eq!(a.len(), 43);
    assert_eq!(b.len(), 43);
    assert_ne!(a, b);
}

#[test]
fn auth_url_matches_url_crate_construction() {
    let auth = Auth::new();
    let challenge = Auth::generate_code_challenge(&auth.code_verifier);
    let mut expected = url::Url::parse("https://accounts.spotify.com/authorize").unwrap();
    expected
        .query_pairs_mut()
        .append_pair("client_id", "ebdbdb22841c48648acf563e594d928e")
        .append_pair("response_type", "code")
        .append_pair("redirect_uri", "http://localhost:8888/callback")
        .append_pair("code_challenge_method", "S256")
        .append_pair("code_challenge", &challenge)
        .append_pair("scope", "user-top-read");
    assert_eq!(auth.auth_url, expected.to_string());
}

#[test]
fn auth_url_carries_challenge_and_method() {
    let auth = Auth::new();
    let challenge = Auth::generate_code_challenge(&auth.code_verifier);
    assert!(auth.auth_url.contains("code_challenge_method=S256"));
    assert!(auth.auth_url.contains(&format!("code_challenge={}", challenge)));
}
