use vstd::prelude::*;

use crate::auth::{AuthError, Token, Uuid};
use crate::permission::{Permission, ADMIN, UNPRIVILEGED};

verus! {

/// The user a token authenticates, if it is a user token.
pub open spec fn token_user(t: &Token) -> Option<Uuid> {
    match t {
        Token::User(u) => Some(u.user_id),
        _ => None,
    }
}

/// Reading an object's record or data: readers of all objects, and the
/// owner's own user token.
pub fn can_read_object(token: &Token, owner: Uuid) -> (r: bool)
    ensures
        r == (token.spec_permission().can_read_all() || token_user(token) == Some(owner)),
{
    token.can_read_all() || match token {
        Token::User(u) => u.user_id == owner,
        _ => false,
    }
}

/// What a write to object `id` needs once the token may write at all.
#[derive(Clone, Copy, Debug, PartialEq, Eq, Structural)]
pub enum WriteCheck {
    Denied,
    Allowed,
    /// A user token: the object's owner decides, see `owner_may_write`.
    NeedsOwner,
}

/// The check made before any lookup: a token without owned writes is
/// denied, a file token may write only its own object, a server any.
pub fn write_check(token: &Token, id: Uuid) -> (r: WriteCheck)
    ensures
        !token.spec_permission().can_write_owned() ==> r == WriteCheck::Denied,
        token.spec_permission().can_write_owned() ==> r == match token {
            Token::User(_) => WriteCheck::NeedsOwner,
            Token::File(f) => if f.file_id == id {
                WriteCheck::Allowed
            } else {
                WriteCheck::Denied
            },
            Token::Server => WriteCheck::Allowed,
        },
{
    if !token.can_write_owned() {
        return WriteCheck::Denied;
    }
    match token {
        Token::User(_) => WriteCheck::NeedsOwner,
        Token::File(f) => if f.file_id == id {
            WriteCheck::Allowed
        } else {
            WriteCheck::Denied
        },
        Token::Server => WriteCheck::Allowed,
    }
}

/// A user token may write an object it owns, or any object where it may
/// write all of them.
pub fn owner_may_write(token: &Token, owner: Uuid) -> (r: bool)
    ensures
        r == (token_user(token) == Some(owner) || (token is User
            && token.spec_permission().can_write_all())),
{
    match token {
        Token::User(u) => u.user_id == owner || token.can_write_all(),
        _ => false,
    }
}

/// Listing the objects of `user_id`: readers of all objects, and that
/// user's own token.
pub fn can_list_user_objects(token: &Token, user_id: Uuid) -> (r: bool)
    ensures
        r == (token.spec_permission().can_read_all() || token_user(token) == Some(user_id)),
{
    can_read_object(token, user_id)
}

/// The owner of a new upload: a user token that may write what it owns.
pub fn uploader(token: &Token) -> (r: Result<Uuid, AuthError>)
    ensures
        token.spec_permission().can_write_owned() && token is User ==> r == Ok::<Uuid, AuthError>(
            token->User_0.user_id,
        ),
        !(token.spec_permission().can_write_owned() && token is User) ==> (r matches Err(e)
            && e is AccessDenied),
{
    if !token.can_write_owned() {
        return Err(AuthError::AccessDenied);
    }
    match token {
        Token::User(u) => Ok(u.user_id),
        _ => Err(AuthError::AccessDenied),
    }
}

/// The user behind a token that acts on itself.
pub fn self_id(token: &Token) -> (r: Result<Uuid, AuthError>)
    ensures
        token is User ==> r == Ok::<Uuid, AuthError>(token->User_0.user_id),
        !(token is User) ==> (r matches Err(e) && e is AccessDenied),
{
    match token {
        Token::User(u) => Ok(u.user_id),
        _ => Err(AuthError::AccessDenied),
    }
}

/// Reading the record of user `id`: that user, readers of users, and
/// servers.
pub fn can_read_user(token: &Token, id: Uuid) -> (r: bool)
    ensures
        r == (token is Server || token_user(token) == Some(id)
            || token.spec_permission().can_read_users()),
{
    match token {
        Token::User(u) => u.user_id == id || token.can_read_users(),
        Token::File(_) => token.can_read_users(),
        Token::Server => true,
    }
}

/// The permission of a login token: the one asked for, which may hold no
/// bit the user lacks, or else the user's own.
pub fn login_permission(user: Permission, requested: Option<Permission>) -> (r: Result<
    Permission,
    AuthError,
>)
    ensures
        requested is None ==> r == Ok::<Permission, AuthError>(user),
        requested matches Some(p) ==> (if user.has(p@) {
            r == Ok::<Permission, AuthError>(p)
        } else {
            r matches Err(e) && e is HigherPermissionRequired
        }),
{
    match requested {
        Some(p) => {
            if !user.contains(p) {
                return Err(AuthError::HigherPermissionRequired);
            }
            Ok(p)
        },
        None => Ok(user),
    }
}

/// The permission of a user created by `token`: only a token that writes
/// users may create one; by default a server creates administrators and
/// anyone else unprivileged users.
pub fn signup_permission(token: &Token, requested: Option<Permission>) -> (r: Result<
    Permission,
    AuthError,
>)
    ensures
        !token.spec_permission().can_write_users() ==> (r matches Err(e) && e is AccessDenied),
        token.spec_permission().can_write_users() ==> r == Ok::<Permission, AuthError>(
            match requested {
                Some(p) => p,
                None => if token is Server {
                    Permission { bits: ADMIN }
                } else {
                    Permission { bits: UNPRIVILEGED }
                },
            },
        ),
{
    if !token.can_write_users() {
        return Err(AuthError::AccessDenied);
    }
    match requested {
        Some(p) => Ok(p),
        None => match token {
            Token::Server => Ok(Permission::admin()),
            _ => Ok(Permission::unprivileged()),
        },
    }
}

} // verus!
