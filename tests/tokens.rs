use base64::Engine;
use downloader::auth::{AuthError, Token, Uuid};
use downloader::permission::{Permission, ADMIN, UNPRIVILEGED, WRITE_USERS};
use downloader::token::{Claims, DecodeFailure, TokenRepository};

const USER_TTL: u64 = 1;
const MAX_TTL: u64 = 30 * 24 * 3600;

fn repository() -> TokenRepository {
    TokenRepository::new(USER_TTL, MAX_TTL, (0u8..128).collect())
}

fn encode(bytes: &[u8]) -> String {
    base64::engine::general_purpose::URL_SAFE_NO_PAD.encode(bytes)
}

#[test]
fn create_user_token_claims() {
    let repo = repository();
    let permission = Permission::empty()
        .union(Permission { bits: UNPRIVILEGED })
        .union(Permission { bits: WRITE_USERS });
    let user_id = Uuid { value: 0x1234_5678_9abc_def0_1234_5678_9abc_def0 };
    let tk = repo.generate_user_token(user_id, permission, String::from("bob")).unwrap();
    let claims = tk.claims().expect("a user token has claims");
    let data = repo.decode_token(Ok(claims)).expect("failed to decode generated token");
    let data = match data {
        Token::User(v) => v,
        _ => panic!("decoded wrong token type"),
    };
    assert_eq!(data.issuer, "SRV");
    assert_eq!(data.expiration - data.created_at, USER_TTL as i64);
    assert_eq!(data.permission, permission);
    assert_eq!(data.user_id, user_id);
    assert_eq!(data.username, "bob");
}

#[test]
fn user_token_at_exact_times() {
    let repo = TokenRepository::new(3600, MAX_TTL, vec![1]);
    let tk = repo
        .user_token_at(Uuid { value: 9 }, Permission::admin(), String::from("amy"), 1_000)
        .unwrap();
    match tk {
        Token::User(u) => {
            assert_eq!(u.created_at, 1_000);
            assert_eq!(u.expiration, 4_600);
        }
        _ => panic!("expected a user token"),
    }
}

#[test]
fn user_token_past_largest_time_fails() {
    let repo = TokenRepository::new(10, MAX_TTL, vec![1]);
    let r = repo.user_token_at(Uuid { value: 9 }, Permission::admin(), String::from("a"), i64::MAX - 5);
    assert!(matches!(r, Err(AuthError::GenerateTokenFailed)));
}

#[test]
fn create_file_token_claims() {
    let repo = repository();
    let file_id = Uuid { value: 327 };
    let issuer = String::from("user/00000000-0000-0000-0000-000000000001");
    let tk = repo
        .generate_file_token(file_id, 327, issuer.clone(), Permission { bits: ADMIN })
        .unwrap();
    let claims = tk.claims().expect("a file token has claims");
    let data = repo.decode_token(Ok(claims)).expect("failed to decode generated token");
    let data = match data {
        Token::File(v) => v,
        _ => panic!("decoded wrong token type"),
    };
    assert_eq!(data.issuer, issuer);
    assert_eq!(data.expiration - data.created_at, 327);
    assert_eq!(data.permission.bits(), ADMIN);
    assert_eq!(data.file_id, file_id);
}

#[test]
fn file_token_over_max_is_refused() {
    let repo = repository();
    let r = repo.generate_file_token(Uuid { value: 1 }, MAX_TTL + 1, String::from("SRV"), Permission::admin());
    match r {
        Err(AuthError::TokenExpirationTooLong { got, max }) => {
            assert_eq!(got, MAX_TTL + 1);
            assert_eq!(max, MAX_TTL);
        }
        other => panic!("expected TokenExpirationTooLong, got {other:?}"),
    }
    let at_max = repo.file_token_at(Uuid { value: 1 }, MAX_TTL, String::from("SRV"), Permission::admin(), 50);
    match at_max {
        Ok(Token::File(f)) => assert_eq!(f.expiration, 50 + MAX_TTL as i64),
        other => panic!("expected a file token, got {other:?}"),
    }
}

#[test]
fn decode_round_trip_of_claims() {
    let repo = repository();
    let claims = Claims::User {
        sub: Uuid { value: 5 },
        iat: 100,
        exp: 101,
        iss: String::from("SRV"),
        perm: 0x13,
        username: String::from("bob"),
    };
    match repo.decode_token(Ok(claims)).unwrap() {
        Token::User(u) => {
            assert_eq!(u.user_id, Uuid { value: 5 });
            assert_eq!(u.permission.bits(), 0x13);
            assert_eq!(u.username, "bob");
            assert_eq!(u.issuer, "SRV");
            assert_eq!(u.expiration - u.created_at, 1);
        }
        _ => panic!("decoded wrong token type"),
    }
    let file = Claims::File { sub: Uuid { value: 6 }, iat: 1, exp: 2, iss: String::from("x"), perm: 2 };
    assert!(matches!(repo.decode_token(Ok(file)), Ok(Token::File(f)) if f.file_id == Uuid { value: 6 }));
}

#[test]
fn decode_failures_map_to_errors() {
    let repo = repository();
    assert!(matches!(repo.decode_token(Err(DecodeFailure::Expired)), Err(AuthError::ExpiredToken)));
    assert!(matches!(repo.decode_token(Err(DecodeFailure::Immature)), Err(AuthError::ImatureToken)));
    assert!(matches!(repo.decode_token(Err(DecodeFailure::Invalid)), Err(AuthError::InvalidToken)));
    let bad_bits = Claims::File { sub: Uuid { value: 6 }, iat: 1, exp: 2, iss: String::from("x"), perm: 0x40 };
    assert!(matches!(repo.decode_token(Ok(bad_bits)), Err(AuthError::InvalidToken)));
}

#[test]
fn server_secret_checks() {
    let repo = repository();
    let secret: Vec<u8> = (0u8..128).collect();
    assert!(matches!(repo.verify_srv_key(&encode(&secret)), Ok(true)));
    assert!(matches!(repo.verify_srv_key(&encode(&secret[..127])), Err(AuthError::InvalidToken)));
    let mut other = secret.clone();
    other[64] ^= 1;
    assert!(matches!(repo.verify_srv_key(&encode(&other)), Ok(false)));
    assert!(matches!(repo.verify_srv_key("not base64!"), Err(AuthError::InvalidToken)));
    assert!(matches!(repo.verify_srv_key_bytes(Some(&secret)), Ok(true)));
    assert!(matches!(repo.verify_srv_key_bytes(None), Err(AuthError::InvalidToken)));
}

#[test]
fn secret_resolves_to_server_token() {
    let repo = repository();
    let secret: Vec<u8> = (0u8..128).collect();
    assert!(matches!(repo.resolve_secret(&encode(&secret)), Ok(Token::Server)));
    let mut other = secret.clone();
    other[0] = 200;
    assert!(matches!(repo.resolve_secret(&encode(&other)), Err(AuthError::InvalidToken)));
}

#[test]
fn lifetime_within_maximum_is_granted() {
    let repo = repository();
    assert!(matches!(repo.generate_file_token(Uuid { value: 1 }, 0, String::from("SRV"), Permission::admin()), Ok(Token::File(f)) if f.expiration == f.created_at));
    assert!(matches!(repo.generate_file_token(Uuid { value: 1 }, MAX_TTL, String::from("SRV"), Permission::admin()), Ok(Token::File(_))));
    assert!(Token::Server.claims().is_none());
}
