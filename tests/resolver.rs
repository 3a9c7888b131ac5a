use downloader::auth::AuthError;
use downloader::resolver::{credential, split_auth_header, Credential, Presented};

fn header(s: &str) -> Presented {
    Presented::Header(Some(String::from(s)))
}

#[test]
fn bearer_header() {
    assert!(matches!(credential(header("Bearer abc.def")), Ok(Credential::Bearer(v)) if v == "abc.def"));
}

#[test]
fn secret_header() {
    assert!(matches!(credential(header("Secret c2VjcmV0")), Ok(Credential::Secret(v)) if v == "c2VjcmV0"));
}

#[test]
fn unknown_strategy() {
    match credential(header("Basic dXNlcg")) {
        Err(AuthError::InvalidAuthStrategy(name, accepted)) => {
            assert_eq!(name, "Basic");
            assert_eq!(accepted, &["Bearer", "Secret"]);
        }
        other => panic!("expected InvalidAuthStrategy, got {other:?}"),
    }
}

#[test]
fn malformed_headers() {
    assert!(matches!(credential(header("Bearer")), Err(AuthError::InvalidAuthHeader)));
    assert!(matches!(credential(header("Bearer a b")), Err(AuthError::InvalidAuthHeader)));
    assert!(matches!(credential(header("Bearer ")), Err(AuthError::InvalidAuthHeader)));
    assert!(matches!(credential(header("   ")), Err(AuthError::InvalidAuthHeader)));
    assert!(matches!(credential(Presented::Header(None)), Err(AuthError::InvalidAuthHeader)));
}

#[test]
fn query_token_fallback() {
    assert!(matches!(credential(Presented::Query(Some(String::from("tok")))), Ok(Credential::Bearer(v)) if v == "tok"));
    assert!(matches!(credential(Presented::Query(None)), Err(AuthError::AuthorizationRequired)));
}

#[test]
fn split_at_single_space() {
    assert!(split_auth_header("Bearer é x").is_none());
    let (a, b) = split_auth_header("Bearer ébc").unwrap();
    assert_eq!(a, "Bearer");
    assert_eq!(b, "ébc");
    assert!(split_auth_header(" x").is_none());
    assert!(split_auth_header("nospace").is_none());
    assert!(split_auth_header("").is_none());
}

#[test]
fn tokens_split_at_any_whitespace() {
    assert!(matches!(credential(header("Bearer  a")), Ok(Credential::Bearer(v)) if v == "a"));
    assert!(matches!(credential(header("Secret\tk")), Ok(Credential::Secret(v)) if v == "k"));
    assert!(matches!(credential(header(" Bearer \t tok \r\n")), Ok(Credential::Bearer(v)) if v == "tok"));
    let (a, b) = split_auth_header("\tBasic   x.y ").unwrap();
    assert_eq!((a.as_str(), b.as_str()), ("Basic", "x.y"));
}
