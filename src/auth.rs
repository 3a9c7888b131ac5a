use vstd::prelude::*;

use crate::permission::Permission;

verus! {

/// A 128-bit universally unique identifier, held as its integer value.
#[derive(Clone, Copy, Debug, PartialEq, Eq, Structural)]
pub struct Uuid {
    pub value: u128,
}

/// The strategies an `Authorization` header may name.
pub fn auth_strategies() -> (r: &'static [&'static str])
    ensures
        r@.len() == 2,
        r@[0]@ == "Bearer"@,
        r@[1]@ == "Secret"@,
{
    &["Bearer", "Secret"]
}

#[derive(Debug)]
pub enum AuthError {
    GenerateTokenFailed,
    /// A requested lifetime over the configured maximum, both in seconds.
    TokenExpirationTooLong { got: u64, max: u64 },
    InvalidToken,
    ExpiredToken,
    ImatureToken,
    AuthorizationRequired,
    InvalidAuthHeader,
    /// The strategy named, and the strategies that are accepted.
    InvalidAuthStrategy(String, &'static [&'static str]),
    AccessDenied,
    HigherPermissionRequired,
}

impl AuthError {
    /// The HTTP status class of the error.
    pub fn status_code(&self) -> (r: u16)
        ensures
            self is GenerateTokenFailed ==> r == 500,
            self is TokenExpirationTooLong ==> r == 400,
            self is InvalidToken || self is ExpiredToken || self is ImatureToken ==> r == 401,
            self is AuthorizationRequired || self is InvalidAuthHeader
                || self is InvalidAuthStrategy ==> r == 400,
            self is AccessDenied || self is HigherPermissionRequired ==> r == 403,
    {
        match self {
            AuthError::GenerateTokenFailed => 500,
            AuthError::TokenExpirationTooLong { .. } => 400,
            AuthError::InvalidToken | AuthError::ExpiredToken | AuthError::ImatureToken => 401,
            AuthError::AuthorizationRequired
            | AuthError::InvalidAuthHeader
            | AuthError::InvalidAuthStrategy(..) => 400,
            AuthError::AccessDenied => 403,
            AuthError::HigherPermissionRequired => 403,
        }
    }

    /// The index of the variant within the authorization errors.
    pub fn custom_code(&self) -> (r: u8)
        ensures
            self is GenerateTokenFailed ==> r == 1,
            self is TokenExpirationTooLong ==> r == 2,
            self is InvalidToken ==> r == 3,
            self is ExpiredToken ==> r == 4,
            self is ImatureToken ==> r == 5,
            self is AuthorizationRequired ==> r == 6,
            self is InvalidAuthHeader ==> r == 7,
            self is InvalidAuthStrategy ==> r == 8,
            self is AccessDenied ==> r == 9,
            self is HigherPermissionRequired ==> r == 10,
    {
        match self {
            AuthError::GenerateTokenFailed => 1,
            AuthError::TokenExpirationTooLong { .. } => 2,
            AuthError::InvalidToken => 3,
            AuthError::ExpiredToken => 4,
            AuthError::ImatureToken => 5,
            AuthError::AuthorizationRequired => 6,
            AuthError::InvalidAuthHeader => 7,
            AuthError::InvalidAuthStrategy(..) => 8,
            AuthError::AccessDenied => 9,
            AuthError::HigherPermissionRequired => 10,
        }
    }
}

/// The claims of a token that authenticates a user; times are seconds
/// since the Unix epoch.
#[derive(Debug)]
pub struct UserToken {
    pub user_id: Uuid,
    pub created_at: i64,
    pub expiration: i64,
    pub issuer: String,
    pub permission: Permission,
    pub username: String,
}

/// The claims of a capability scoped to a single object.
#[derive(Debug)]
pub struct FileToken {
    pub file_id: Uuid,
    pub created_at: i64,
    pub expiration: i64,
    /// The principal that granted the capability.
    pub issuer: String,
    pub permission: Permission,
}

#[derive(Debug)]
pub enum Token {
    User(UserToken),
    File(FileToken),
    /// A trusted server, verified by the shared secret.
    Server,
}

impl Token {
    pub open spec fn spec_permission(&self) -> Permission {
        match self {
            Token::User(t) => t.permission,
            Token::File(t) => t.permission,
            Token::Server => Permission { bits: crate::permission::ADMIN },
        }
    }

    /// The variant's bitset, or every bit for a server.
    pub fn permission(&self) -> (r: Permission)
        ensures
            r == self.spec_permission(),
    {
        match self {
            Token::User(p) => p.permission,
            Token::File(p) => p.permission,
            Token::Server => Permission::all(),
        }
    }

    /// Every principal may read what it owns.
    pub fn can_read_owned(&self) -> (r: bool)
        ensures
            r,
    {
        true
    }

    pub fn can_share(&self) -> (r: bool)
        ensures
            r == self.spec_permission().can_share(),
    {
        self.permission().contains(Permission { bits: crate::permission::SHARE })
    }

    pub fn can_read_all(&self) -> (r: bool)
        ensures
            r == self.spec_permission().can_read_all(),
    {
        self.permission().contains(Permission { bits: crate::permission::READ_ALL })
    }

    pub fn can_write_owned(&self) -> (r: bool)
        ensures
            r == self.spec_permission().can_write_owned(),
    {
        let perm = self.permission();
        perm.contains(Permission { bits: crate::permission::WRITE_OWNED }) || perm.contains(
            Permission { bits: crate::permission::WRITE_ALL },
        )
    }

    pub fn can_write_all(&self) -> (r: bool)
        ensures
            r == self.spec_permission().can_write_all(),
    {
        self.permission().contains(Permission { bits: crate::permission::WRITE_ALL })
    }

    pub fn can_read_users(&self) -> (r: bool)
        ensures
            r == self.spec_permission().can_read_users(),
    {
        self.permission().contains(Permission { bits: crate::permission::READ_USERS })
    }

    pub fn can_write_users(&self) -> (r: bool)
        ensures
            r == self.spec_permission().can_write_users(),
    {
        self.permission().contains(Permission { bits: crate::permission::WRITE_USERS })
    }
}

} // verus!
