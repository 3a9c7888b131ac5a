use vstd::prelude::*;

use crate::auth::{AuthError, Token, Uuid};
use crate::permission::Permission;
use crate::storage::{uuid_hyphenated, uuid_text};

verus! {

/// A user's credentials.
#[derive(Debug)]
pub struct UserData {
    pub username: String,
    pub password: String,
}

#[derive(Debug)]
pub struct LoginRequestData {
    pub username: String,
    pub password: String,
    /// The permission the token should carry, if less than the user's.
    pub permission: Option<Permission>,
}

impl LoginRequestData {
    /// The credentials, and the permission asked for.
    pub fn split(self) -> (r: (UserData, Option<Permission>))
        ensures
            r.0.username == self.username,
            r.0.password == self.password,
            r.1 == self.permission,
    {
        (UserData { password: self.password, username: self.username }, self.permission)
    }
}

/// The lifetime of a file token when the request names none, in seconds.
pub const DEFAULT_FILE_TOKEN_SECS: u64 = 3600;

#[derive(Debug)]
pub struct FileTokenRequestData {
    pub permission: Option<Permission>,
    /// The lifetime asked for, in seconds.
    pub duration: Option<u64>,
}

/// The permission and lifetime that a file token request asks for, given
/// the requesting token's permission and whether it may share.
pub open spec fn requested_grant(
    permission: Option<Permission>,
    duration: Option<u64>,
    granter: Permission,
) -> Result<(Permission, u64), AuthError> {
    let p = match permission {
        Some(p) => p,
        None => Permission { bits: crate::permission::SINGLE_FILE_R },
    };
    let d = match duration {
        Some(d) => d,
        None => DEFAULT_FILE_TOKEN_SECS,
    };
    if !granter.can_share() {
        Err(AuthError::AccessDenied)
    } else if !granter.has(p@) {
        Err(AuthError::HigherPermissionRequired)
    } else {
        Ok((p, d))
    }
}

impl FileTokenRequestData {
    /// What a token may grant: it must be allowed to share, and may grant
    /// no bit it does not hold; by default a read-only grant for an hour.
    pub fn requested(&self, token: &Token) -> (r: Result<(Permission, u64), AuthError>)
        ensures
            r == requested_grant(self.permission, self.duration, token.spec_permission()),
    {
        if !token.can_share() {
            return Err(AuthError::AccessDenied);
        }
        let permission = match self.permission {
            Some(p) => p,
            None => Permission { bits: crate::permission::SINGLE_FILE_R },
        };
        let duration = match self.duration {
            Some(d) => d,
            None => DEFAULT_FILE_TOKEN_SECS,
        };
        if !token.permission().contains(permission) {
            return Err(AuthError::HigherPermissionRequired);
        }
        Ok((permission, duration))
    }
}

/// The issuer recorded in a file token granted by `token` on an object of
/// `owner`: a user must own the object or write all objects, a file token
/// may not grant further, and a server always may.
pub fn file_token_issuer(token: &Token, owner: Uuid) -> (r: Result<String, AuthError>)
    ensures
        token matches Token::User(u) ==> (if u.permission.can_write_all() || u.user_id == owner {
            r matches Ok(s) && s@ == "user/"@ + uuid_text(u.user_id.value)
        } else {
            r matches Err(e) && e is AccessDenied
        }),
        token is File ==> (r matches Err(e) && e is AccessDenied),
        token is Server ==> (r matches Ok(s) && s@ == "SRV"@),
{
    match token {
        Token::User(u) => {
            if token.can_write_all() || u.user_id == owner {
                let mut issuer = String::from_str("user/");
                issuer.append(uuid_hyphenated(u.user_id).as_str());
                Ok(issuer)
            } else {
                Err(AuthError::AccessDenied)
            }
        },
        Token::File(_) => Err(AuthError::AccessDenied),
        Token::Server => Ok(String::from_str("SRV")),
    }
}

#[derive(Debug)]
pub struct UpdatePasswordRequestData {
    pub username: String,
    pub old_password: String,
    pub new_password: String,
}

#[derive(Debug)]
pub struct PostFileRequestData {
    pub name: String,
}

/// The most objects one page may hold.
pub const MAX_LIMIT: u32 = 100;

#[derive(Debug)]
pub struct PaginationData {
    pub limit: u32,
    pub offset: u32,
}

pub fn default_pagination_limit() -> (r: u32)
    ensures
        r == MAX_LIMIT,
{
    MAX_LIMIT
}

pub fn default_pagination_offset() -> (r: u32)
    ensures
        r == 0,
{
    0
}

#[derive(Debug)]
pub struct UpdateFileRequestData {
    pub name: String,
    pub mime_type: String,
}

#[derive(Debug)]
pub struct UpdatePermissionRequestData {
    pub permission: Permission,
}

} // verus!
