use spotifyfetch::callback::{callback_code, parse_query_pairs};
use spotifyfetch::AuthError;

#[test]
fn code_is_extracted() {
    let r = callback_code("/callback?code=ABC123");
    assert_eq!(r.unwrap(), "ABC123");
}

#[test]
fn code_among_other_parameters() {
    let r = callback_code("/callback?state=xyz&code=AQD-77&foo=bar");
    assert_eq!(r.unwrap(), "AQD-77");
}

#[test]
fn error_parameter_yields_rejection() {
    let r = callback_code("/callback?error=access_denied");
    match r {
        Err(AuthError::CallbackRejected { detail }) => {
            assert_eq!(detail.as_deref(), Some("access_denied"));
        }
        other => panic!("expected a rejection, got {:?}", other),
    }
}

#[test]
fn missing_code_yields_rejection_without_detail() {
    let r = callback_code("/callback");
    match r {
        Err(AuthError::CallbackRejected { detail }) => assert!(detail.is_none()),
        other => panic!("expected a rejection, got {:?}", other),
    }
}

#[test]
fn empty_query_yields_rejection() {
    let r = callback_code("/callback?");
    assert!(matches!(r, Err(AuthError::CallbackRejected { .. })));
}

#[test]
fn percent_and_plus_are_decoded() {
    let r = callback_code("/callback?code=a%20b%2Bc+d");
    assert_eq!(r.unwrap(), "a b+c d");
}

#[test]
fn first_code_parameter_wins() {
    let r = callback_code("/callback?code=first&code=second");
    assert_eq!(r.unwrap(), "first");
}

#[test]
fn pairs_match_url_crate_for_ascii() {
    let query = "code=AQ%2Fxy&state=a+b&empty=&noval&x=%41";
    let mine = parse_query_pairs(query);
    let theirs: Vec<(String, String)> = url::form_urlencoded::parse(query.as_bytes())
        .map(|(k, v)| (k.into_owned(), v.into_owned()))
        .collect();
    assert_eq!(mine, theirs);
}

#[test]
fn malformed_escape_stays_literal() {
    let pairs = parse_query_pairs("k=%zz%1");
    assert_eq!(pairs, vec![("k".to_string(), "%zz%1".to_string())]);
}

#[test]
fn empty_segments_are_skipped() {
    let pairs = parse_query_pairs("&&a=1&&b=2&");
    assert_eq!(
        pairs,
        vec![
            ("a".to_string(), "1".to_string()),
            ("b".to_string(), "2".to_string())
        ]
    );
}
