use vstd::prelude::*;

use crate::auth::{AuthError, FileToken, Token, UserToken, Uuid};
use crate::permission::Permission;

verus! {

/// The issuer written into every user token.
pub open spec fn system_issuer() -> Seq<char> {
    "SRV"@
}

/// The claims of a token as they stand in its signed payload, before the
/// permission bits are checked. Times are seconds since the Unix epoch.
#[derive(Debug)]
pub enum Claims {
    User {
        sub: Uuid,
        iat: i64,
        exp: i64,
        iss: String,
        perm: u8,
        username: String,
    },
    File { sub: Uuid, iat: i64, exp: i64, iss: String, perm: u8 },
}

/// Why the signature layer refused a presented token.
#[derive(Clone, Copy, Debug, PartialEq, Eq, Structural)]
pub enum DecodeFailure {
    /// The expiry lies in the past.
    Expired,
    /// The token is not valid yet.
    Immature,
    /// A bad signature, malformed claims, or any other refusal.
    Invalid,
}

/// The token that decoding `decoded` yields.
pub open spec fn decoded_token(decoded: Result<Claims, DecodeFailure>) -> Result<Token, AuthError> {
    match decoded {
        Err(DecodeFailure::Expired) => Err(AuthError::ExpiredToken),
        Err(DecodeFailure::Immature) => Err(AuthError::ImatureToken),
        Err(DecodeFailure::Invalid) => Err(AuthError::InvalidToken),
        Ok(Claims::User { sub, iat, exp, iss, perm, username }) => if perm & !crate::permission::ADMIN
            == 0 {
            Ok(
                Token::User(
                    UserToken {
                        user_id: sub,
                        created_at: iat,
                        expiration: exp,
                        issuer: iss,
                        permission: Permission { bits: perm },
                        username,
                    },
                ),
            )
        } else {
            Err(AuthError::InvalidToken)
        },
        Ok(Claims::File { sub, iat, exp, iss, perm }) => if perm & !crate::permission::ADMIN == 0 {
            Ok(
                Token::File(
                    FileToken {
                        file_id: sub,
                        created_at: iat,
                        expiration: exp,
                        issuer: iss,
                        permission: Permission { bits: perm },
                    },
                ),
            )
        } else {
            Err(AuthError::InvalidToken)
        },
    }
}

/// The claims that encode `t`; a server token has none.
pub open spec fn claims_of(t: Token) -> Option<Claims> {
    match t {
        Token::User(u) => Some(
            Claims::User {
                sub: u.user_id,
                iat: u.created_at,
                exp: u.expiration,
                iss: u.issuer,
                perm: u.permission.bits,
                username: u.username,
            },
        ),
        Token::File(f) => Some(
            Claims::File {
                sub: f.file_id,
                iat: f.created_at,
                exp: f.expiration,
                iss: f.issuer,
                perm: f.permission.bits,
            },
        ),
        Token::Server => None,
    }
}

impl Token {
    /// The claims that encode this token; a server token has none.
    pub fn claims(self) -> (r: Option<Claims>)
        ensures
            r == claims_of(self),
    {
        match self {
            Token::User(u) => Some(
                Claims::User {
                    sub: u.user_id,
                    iat: u.created_at,
                    exp: u.expiration,
                    iss: u.issuer,
                    perm: u.permission.bits,
                    username: u.username,
                },
            ),
            Token::File(f) => Some(
                Claims::File {
                    sub: f.file_id,
                    iat: f.created_at,
                    exp: f.expiration,
                    iss: f.issuer,
                    perm: f.permission.bits,
                },
            ),
            Token::Server => None,
        }
    }
}

/// The outcome of checking a presented server secret, given what decoding
/// its text gave.
pub open spec fn srv_key_outcome(secret: Seq<u8>, decoded: Option<Seq<u8>>) -> Result<bool, AuthError> {
    match decoded {
        None => Err(AuthError::InvalidToken),
        Some(v) => if v.len() != secret.len() {
            Err(AuthError::InvalidToken)
        } else {
            Ok(v == secret)
        },
    }
}

/// The bytes that URL-safe, unpadded base64 text decodes to, or `None`
/// where the text is not such base64.
pub uninterp spec fn base64_url_decoded(text: Seq<char>) -> Option<Seq<u8>>;

/// Relies on base64's `URL_SAFE_NO_PAD` engine: `decode` depends on the
/// text alone and reports the text it cannot decode.
#[verifier::external_body]
fn base64_url_decode(text: &str) -> (r: Option<Vec<u8>>)
    ensures
        r matches Some(v) ==> base64_url_decoded(text@) == Some(v@),
        r is None ==> base64_url_decoded(text@) is None,
{
    base64::Engine::decode(&base64::engine::general_purpose::URL_SAFE_NO_PAD, text).ok()
}

/// The timestamp of chrono's largest `DateTime<Utc>`, the last second of
/// year 262142.
pub const MAX_TIMESTAMP: i64 = 8210266876799;

/// Relies on chrono's `Utc::now`: the current time in whole seconds since
/// the Unix epoch. It reads the system clock as a duration since the epoch
/// (a clock before it panics) and builds a `DateTime`, which holds no time
/// past chrono's largest date.
#[verifier::external_body]
fn now_timestamp() -> (r: i64)
    ensures
        0 <= r <= MAX_TIMESTAMP,
{
    chrono::Utc::now().timestamp()
}

/// Issues and checks tokens: the lifetimes it grants, in seconds, and the
/// secret that a trusted server presents.
pub struct TokenRepository {
    user_token_duration: u64,
    max_token_duration: u64,
    srv_secret: Vec<u8>,
}

impl TokenRepository {
    pub closed spec fn user_ttl(&self) -> u64 {
        self.user_token_duration
    }

    pub closed spec fn max_ttl(&self) -> u64 {
        self.max_token_duration
    }

    pub closed spec fn secret(&self) -> Seq<u8> {
        self.srv_secret@
    }

    pub fn new(user_token_duration: u64, max_token_duration: u64, srv_secret: Vec<u8>) -> (r:
        TokenRepository)
        ensures
            r.user_ttl() == user_token_duration,
            r.max_ttl() == max_token_duration,
            r.secret() == srv_secret@,
    {
        TokenRepository { user_token_duration, max_token_duration, srv_secret }
    }

    /// The claims of a user token issued at `now`, valid for the
    /// configured user lifetime; an expiry past the largest timestamp
    /// cannot be issued.
    pub fn user_token_at(&self, user_id: Uuid, permission: Permission, username: String, now: i64) -> (r:
        Result<Token, AuthError>)
        ensures
            r is Ok <==> now + self.user_ttl() <= i64::MAX,
            r matches Ok(t) ==> (t matches Token::User(u) && u.user_id == user_id && u.created_at
                == now && u.expiration == now + self.user_ttl() && u.issuer@ == system_issuer()
                && u.permission == permission && u.username == username),
            r matches Err(e) ==> (e is GenerateTokenFailed),
    {
        let expiration: i128 = now as i128 + self.user_token_duration as i128;
        if expiration > i64::MAX as i128 {
            return Err(AuthError::GenerateTokenFailed);
        }
        let issuer = String::from_str("SRV");
        proof {
            reveal_strlit("SRV");
        }
        Ok(
            Token::User(
                UserToken {
                    user_id,
                    created_at: now,
                    expiration: expiration as i64,
                    issuer,
                    permission,
                    username,
                },
            ),
        )
    }

    /// The claims of a new user token, stamped with the current time and
    /// valid for the configured user lifetime; they are signed by the
    /// caller.
    pub fn generate_user_token(&self, user_id: Uuid, permission: Permission, username: String) -> (r:
        Result<Token, AuthError>)
        ensures
            self.user_ttl() <= i64::MAX - MAX_TIMESTAMP ==> r is Ok,
            r matches Ok(t) ==> (t matches Token::User(u) && u.user_id == user_id && u.expiration
                == u.created_at + self.user_ttl() && u.issuer@ == system_issuer() && u.permission
                == permission && u.username == username),
            r matches Err(e) ==> (e is GenerateTokenFailed),
    {
        self.user_token_at(user_id, permission, username, now_timestamp())
    }

    /// The claims of a token scoped to object `file_id`, issued at `now`
    /// for `expiration` seconds; a lifetime over the configured maximum is
    /// refused before anything else.
    pub fn file_token_at(
        &self,
        file_id: Uuid,
        expiration: u64,
        issuer: String,
        permission: Permission,
        now: i64,
    ) -> (r: Result<Token, AuthError>)
        ensures
            expiration > self.max_ttl() ==> r == (Err::<Token, AuthError>(
                AuthError::TokenExpirationTooLong { got: expiration, max: self.max_ttl() },
            )),
            expiration <= self.max_ttl() && now + expiration <= i64::MAX ==> r == (Ok::<
                Token,
                AuthError,
            >(
                Token::File(
                    FileToken {
                        file_id,
                        created_at: now,
                        expiration: (now + expiration) as i64,
                        issuer,
                        permission,
                    },
                ),
            )),
            expiration <= self.max_ttl() && now + expiration > i64::MAX ==> r == (Err::<
                Token,
                AuthError,
            >(AuthError::GenerateTokenFailed)),
    {
        if expiration > self.max_token_duration {
            return Err(
                AuthError::TokenExpirationTooLong { got: expiration, max: self.max_token_duration },
            );
        }
        let end: i128 = now as i128 + expiration as i128;
        if end > i64::MAX as i128 {
            return Err(AuthError::GenerateTokenFailed);
        }
        Ok(
            Token::File(
                FileToken { file_id, created_at: now, expiration: end as i64, issuer, permission },
            ),
        )
    }

    /// The claims of a new token scoped to object `file_id`, stamped with
    /// the current time; a lifetime over the configured maximum produces
    /// no token.
    pub fn generate_file_token(
        &self,
        file_id: Uuid,
        expiration: u64,
        issuer: String,
        permission: Permission,
    ) -> (r: Result<Token, AuthError>)
        ensures
            expiration > self.max_ttl() ==> r == (Err::<Token, AuthError>(
                AuthError::TokenExpirationTooLong { got: expiration, max: self.max_ttl() },
            )),
            expiration <= self.max_ttl() ==> (r is Ok || (r is Err && r->Err_0 is GenerateTokenFailed)),
            expiration <= self.max_ttl() && expiration <= i64::MAX - MAX_TIMESTAMP ==> r is Ok,
            r matches Ok(t) ==> (t matches Token::File(f) && f.file_id == file_id && f.expiration
                == f.created_at + expiration && f.issuer == issuer && f.permission == permission),
    {
        if expiration > self.max_token_duration {
            return Err(
                AuthError::TokenExpirationTooLong { got: expiration, max: self.max_token_duration },
            );
        }
        self.file_token_at(file_id, expiration, issuer, permission, now_timestamp())
    }

    /// The token that a presented token decodes to, given what the
    /// signature layer reported: its claims, or why it refused them.
    /// Claims with a bit outside the named capabilities are invalid.
    pub fn decode_token(&self, decoded: Result<Claims, DecodeFailure>) -> (r: Result<Token, AuthError>)
        ensures
            r == decoded_token(decoded),
    {
        match decoded {
            Err(DecodeFailure::Expired) => Err(AuthError::ExpiredToken),
            Err(DecodeFailure::Immature) => Err(AuthError::ImatureToken),
            Err(DecodeFailure::Invalid) => Err(AuthError::InvalidToken),
            Ok(Claims::User { sub, iat, exp, iss, perm, username }) => {
                match Permission::from_bits(perm) {
                    Some(permission) => Ok(
                        Token::User(
                            UserToken {
                                user_id: sub,
                                created_at: iat,
                                expiration: exp,
                                issuer: iss,
                                permission,
                                username,
                            },
                        ),
                    ),
                    None => Err(AuthError::InvalidToken),
                }
            },
            Ok(Claims::File { sub, iat, exp, iss, perm }) => {
                match Permission::from_bits(perm) {
                    Some(permission) => Ok(
                        Token::File(
                            FileToken {
                                file_id: sub,
                                created_at: iat,
                                expiration: exp,
                                issuer: iss,
                                permission,
                            },
                        ),
                    ),
                    None => Err(AuthError::InvalidToken),
                }
            },
        }
    }

    /// Checks the bytes that a presented server secret decoded to, or
    /// `None` where it did not decode: a length other than the secret's is
    /// invalid, otherwise the bytes are compared one by one.
    pub fn verify_srv_key_bytes(&self, decoded: Option<&[u8]>) -> (r: Result<bool, AuthError>)
        ensures
            r == srv_key_outcome(
                self.secret(),
                match decoded {
                    Some(v) => Some(v@),
                    None => None,
                },
            ),
    {
        match decoded {
            None => Err(AuthError::InvalidToken),
            Some(v) => {
                if v.len() != self.srv_secret.len() {
                    return Err(AuthError::InvalidToken);
                }
                let mut i: usize = 0;
                while i < v.len()
                    invariant
                        decoded == Some(v),
                        v@.len() == self.srv_secret@.len(),
                        0 <= i <= v@.len(),
                        forall|j: int| 0 <= j < i ==> v@[j] == self.srv_secret@[j],
                    decreases v@.len() - i,
                {
                    if v[i] != self.srv_secret[i] {
                        assert(v@[i as int] != self.srv_secret@[i as int]);
                        assert(v@ != self.srv_secret@);
                        return Ok(false);
                    }
                    i += 1;
                }
                assert(v@ =~= self.srv_secret@);
                Ok(true)
            },
        }
    }

    /// Checks a presented server secret, given as URL-safe unpadded base64.
    pub fn verify_srv_key(&self, token: &str) -> (r: Result<bool, AuthError>)
        ensures
            r == srv_key_outcome(self.secret(), base64_url_decoded(token@)),
    {
        let decoded = base64_url_decode(token);
        match decoded {
            Some(v) => self.verify_srv_key_bytes(Some(v.as_slice())),
            None => self.verify_srv_key_bytes(None),
        }
    }

    /// The token of a trusted server, where `token` is its secret.
    pub fn resolve_secret(&self, token: &str) -> (r: Result<Token, AuthError>)
        ensures
            srv_key_outcome(self.secret(), base64_url_decoded(token@)) == Ok::<bool, AuthError>(
                true,
            ) ==> r is Ok && r->Ok_0 is Server,
            srv_key_outcome(self.secret(), base64_url_decoded(token@)) == Ok::<bool, AuthError>(
                false,
            ) ==> r is Err && r->Err_0 is InvalidToken,
            srv_key_outcome(self.secret(), base64_url_decoded(token@)) matches Err(e) ==> r
                == Err::<Token, AuthError>(e),
    {
        match self.verify_srv_key(token) {
            Ok(true) => Ok(Token::Server),
            Ok(false) => Err(AuthError::InvalidToken),
            Err(e) => Err(e),
        }
    }
}

/// Decoding the claims of a token gives the token back, for any user or
/// file token whose permission holds only named capabilities.
pub proof fn lemma_token_round_trip(t: Token)
    requires
        !(t is Server),
        t.spec_permission().well_formed(),
    ensures
        claims_of(t) matches Some(c) && decoded_token(Ok(c)) == Ok::<Token, AuthError>(t),
{
}

/// The exact secret is accepted, bytes of another length are invalid, and
/// other bytes of the same length are refused.
pub proof fn lemma_srv_key_checks(secret: Seq<u8>, other: Seq<u8>)
    ensures
        srv_key_outcome(secret, Some(secret)) == Ok::<bool, AuthError>(true),
        other.len() != secret.len() ==> srv_key_outcome(secret, Some(other)) is Err,
        other.len() != secret.len() ==> srv_key_outcome(secret, Some(other))->Err_0 is InvalidToken,
        other.len() == secret.len() && other != secret ==> srv_key_outcome(secret, Some(other))
            == Ok::<bool, AuthError>(false),
{
}

} // verus!
