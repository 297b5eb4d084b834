//! Proof Key for Code Exchange: the one-time verifier/challenge pair and
//! the authorization URL built from the challenge.
//!
//! The verifier is 32 bytes of system randomness rendered as unpadded
//! URL-safe base64; the challenge is the unpadded URL-safe base64 of the
//! SHA-256 digest of the verifier's UTF-8 bytes.
//!
//! Known limitation: the authorization request carries no anti-forgery
//! `state` value tying the redirect callback to this attempt; the
//! listener accepts the single request it receives.

use vstd::prelude::*;
use vstd::string::StringExecFns;
use base64::Engine;
use sha2::Digest;
use crate::encoding::{form_urlencode, urlencode_of};

verus! {

/// The SHA-256 digest of a byte string: a function of the bytes alone.
pub uninterp spec fn sha256_of(bytes: Seq<u8>) -> Seq<u8>;

/// Unpadded URL-safe base64 of a byte string: a function of the bytes
/// alone.
pub uninterp spec fn b64url_of(bytes: Seq<u8>) -> Seq<char>;

/// Relies on `rand::random::<u8>`: one byte from the thread-local
/// cryptographically secure generator; nothing can be promised of its
/// value.
#[verifier::external_body]
fn random_byte() -> u8 {
    rand::random::<u8>()
}

/// Relies on `sha2::Sha256::digest`: the 32-byte SHA-256 digest,
/// determined by the input bytes alone.
#[verifier::external_body]
pub(crate) fn sha256_bytes(bytes: &[u8]) -> (r: Vec<u8>)
    ensures
        r@ == sha256_of(bytes@),
        r@.len() == 32,
{
    sha2::Sha256::digest(bytes).as_slice().to_vec()
}

/// Relies on `base64`'s `URL_SAFE_NO_PAD` engine: unpadded URL-safe
/// base64, determined by the input bytes alone; four output characters
/// for every three input bytes, rounded up.
#[verifier::external_body]
fn b64url_nopad(bytes: &[u8]) -> (r: String)
    ensures
        r@ == b64url_of(bytes@),
        r@.len() == (bytes@.len() * 4 + 2) / 3,
{
    base64::engine::general_purpose::URL_SAFE_NO_PAD.encode(bytes)
}

/// The PKCE challenge derived from a verifier string: the unpadded
/// URL-safe base64 encoding of the SHA-256 digest of its UTF-8 bytes.
pub open spec fn spec_challenge(verifier: Seq<char>) -> Seq<char> {
    b64url_of(sha256_of(vstd::utf8::encode_utf8(verifier)))
}

/// The authorization URL for a given challenge: the authorize endpoint
/// with the client identifier, the `code` response type, the registered
/// redirect URI, the `S256` challenge method, the challenge itself and
/// the requested scope, each value form-urlencoded.
pub open spec fn spec_auth_url(challenge: Seq<char>) -> Seq<char> {
    "https://accounts.spotify.com/authorize?client_id="@ + urlencode_of(
        "ebdbdb22841c48648acf563e594d928e"@,
    ) + "&response_type="@ + urlencode_of("code"@) + "&redirect_uri="@ + urlencode_of(
        "http://localhost:8888/callback"@,
    ) + "&code_challenge_method="@ + urlencode_of("S256"@) + "&code_challenge="@ + urlencode_of(
        challenge,
    ) + "&scope="@ + urlencode_of("user-top-read"@)
}

/// One authorization attempt: the secret verifier, held only in memory
/// for the lifetime of the attempt, and the authorization URL that
/// carries its derived challenge.
pub struct Auth {
    pub code_verifier: String,
    pub auth_url: String,
}

impl Auth {
    /// Generates a fresh verifier and derives the authorization URL from
    /// its challenge.
    pub fn new() -> (r: Auth)
        ensures
            (exists|bs: Seq<u8>| bs.len() == 32 && r.code_verifier@ == #[trigger] b64url_of(bs)),
            r.code_verifier@.len() == 43,
            r.auth_url@ == spec_auth_url(spec_challenge(r.code_verifier@)),
    {
        let code_verifier = Self::generate_code_verifier();
        let code_challenge = Self::generate_code_challenge(code_verifier.as_str());
        let auth_url = Self::build_auth_url(code_challenge.as_str());
        Auth { code_verifier, auth_url }
    }

    /// A verifier from 32 bytes of cryptographically strong randomness,
    /// rendered as unpadded URL-safe base64 (43 characters).
    pub fn generate_code_verifier() -> (r: String)
        ensures
            (exists|bs: Seq<u8>| bs.len() == 32 && r@ == #[trigger] b64url_of(bs)),
            r@.len() == 43,
    {
        let mut bytes: Vec<u8> = Vec::new();
        let mut i: usize = 0;
        while i < 32
            invariant
                bytes@.len() == i,
                i <= 32,
            decreases 32 - i,
        {
            bytes.push(random_byte());
            i = i + 1;
        }
        let r = b64url_nopad(bytes.as_slice());
        proof {
            assert(bytes@.len() == 32 && r@ == b64url_of(bytes@));
        }
        r
    }

    /// The PKCE challenge of a verifier: `base64url_nopad(SHA256(v))`,
    /// deterministic in `v`.
    pub fn generate_code_challenge(verifier: &str) -> (r: String)
        ensures
            r@ == spec_challenge(verifier@),
            r@.len() == 43,
    {
        let digest = sha256_bytes(verifier.as_bytes());
        b64url_nopad(digest.as_slice())
    }

    /// Builds the authorization URL around a challenge.
    pub fn build_auth_url(code_challenge: &str) -> (r: String)
        ensures
            r@ == spec_auth_url(code_challenge@),
    {
        let mut url = String::new();
        url.append("https://accounts.spotify.com/authorize?client_id=");
        url.append(form_urlencode("ebdbdb22841c48648acf563e594d928e").as_str());
        url.append("&response_type=");
        url.append(form_urlencode("code").as_str());
        url.append("&redirect_uri=");
        url.append(form_urlencode("http://localhost:8888/callback").as_str());
        url.append("&code_challenge_method=");
        url.append(form_urlencode("S256").as_str());
        url.append("&code_challenge=");
        url.append(form_urlencode(code_challenge).as_str());
        url.append("&scope=");
        url.append(form_urlencode("user-top-read").as_str());
        url
    }
}

impl Default for Auth {
    /// A fresh authorization attempt, as `Auth::new` makes it.
    fn default() -> (r: Auth)
        ensures
            r.auth_url@ == spec_auth_url(spec_challenge(r.code_verifier@)),
    {
        Auth::new()
    }
}

} // verus!
