use downloader::access::{
    can_list_user_objects, can_read_object, can_read_user, login_permission, owner_may_write,
    self_id, signup_permission, uploader, write_check, WriteCheck,
};
use downloader::auth::{AuthError, FileToken, Token, UserToken, Uuid};
use downloader::permission::{
    Permission, ADMIN, READ_ALL, READ_USERS, SHARE, SINGLE_FILE_R, SINGLE_FILE_RW, UNPRIVILEGED,
    WRITE_ALL, WRITE_USERS,
};

fn user(id: u128, bits: u8) -> Token {
    Token::User(UserToken {
        user_id: Uuid { value: id },
        created_at: 0,
        expiration: 1,
        issuer: String::from("SRV"),
        permission: Permission { bits },
        username: String::from("u"),
    })
}

fn file(id: u128, bits: u8) -> Token {
    Token::File(FileToken {
        file_id: Uuid { value: id },
        created_at: 0,
        expiration: 1,
        issuer: String::from("user/x"),
        permission: Permission { bits },
    })
}

#[test]
fn reading_objects() {
    let owner = Uuid { value: 1 };
    assert!(can_read_object(&user(1, 0), owner));
    assert!(!can_read_object(&user(2, UNPRIVILEGED), owner));
    assert!(can_read_object(&user(2, READ_ALL), owner));
    assert!(!can_read_object(&file(1, SINGLE_FILE_R), owner));
    assert!(can_read_object(&Token::Server, owner));
    assert!(can_list_user_objects(&user(1, 0), owner));
    assert!(!can_list_user_objects(&user(3, 0), owner));
}

#[test]
fn writing_objects() {
    let id = Uuid { value: 5 };
    assert_eq!(write_check(&user(1, SHARE), id), WriteCheck::Denied);
    assert_eq!(write_check(&user(1, UNPRIVILEGED), id), WriteCheck::NeedsOwner);
    assert_eq!(write_check(&file(5, SINGLE_FILE_RW), id), WriteCheck::Allowed);
    assert_eq!(write_check(&file(6, SINGLE_FILE_RW), id), WriteCheck::Denied);
    assert_eq!(write_check(&file(5, SINGLE_FILE_R), id), WriteCheck::Denied);
    assert_eq!(write_check(&Token::Server, id), WriteCheck::Allowed);
    assert!(owner_may_write(&user(1, UNPRIVILEGED), Uuid { value: 1 }));
    assert!(!owner_may_write(&user(1, UNPRIVILEGED), Uuid { value: 2 }));
    assert!(owner_may_write(&user(1, WRITE_ALL), Uuid { value: 2 }));
}

#[test]
fn uploads_and_self_actions() {
    assert!(matches!(uploader(&user(4, UNPRIVILEGED)), Ok(u) if u == Uuid { value: 4 }));
    assert!(matches!(uploader(&user(4, SHARE)), Err(AuthError::AccessDenied)));
    assert!(matches!(uploader(&Token::Server), Err(AuthError::AccessDenied)));
    assert!(matches!(uploader(&file(4, SINGLE_FILE_RW)), Err(AuthError::AccessDenied)));
    assert!(matches!(self_id(&user(4, 0)), Ok(u) if u == Uuid { value: 4 }));
    assert!(matches!(self_id(&Token::Server), Err(AuthError::AccessDenied)));
}

#[test]
fn reading_users() {
    let id = Uuid { value: 9 };
    assert!(can_read_user(&user(9, 0), id));
    assert!(!can_read_user(&user(8, UNPRIVILEGED & !READ_USERS), id));
    assert!(can_read_user(&user(8, READ_USERS), id));
    assert!(can_read_user(&file(1, READ_USERS), id));
    assert!(!can_read_user(&file(1, SINGLE_FILE_RW), id));
    assert!(can_read_user(&Token::Server, id));
}

#[test]
fn login_and_signup_permissions() {
    let mine = Permission { bits: UNPRIVILEGED };
    assert_eq!(login_permission(mine, None).unwrap(), mine);
    assert_eq!(login_permission(mine, Some(Permission { bits: SHARE })).unwrap().bits(), SHARE);
    assert!(matches!(login_permission(mine, Some(Permission { bits: WRITE_ALL })), Err(AuthError::HigherPermissionRequired)));
    assert_eq!(signup_permission(&Token::Server, None).unwrap().bits(), ADMIN);
    assert_eq!(signup_permission(&user(1, WRITE_USERS), None).unwrap().bits(), UNPRIVILEGED);
    assert_eq!(signup_permission(&user(1, WRITE_USERS), Some(Permission { bits: 0 })).unwrap().bits(), 0);
    assert!(matches!(signup_permission(&user(1, UNPRIVILEGED), None), Err(AuthError::AccessDenied)));
}
