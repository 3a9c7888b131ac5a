use vstd::prelude::*;

use crate::auth::AuthError;
use crate::storage::ObjectError;

verus! {

#[derive(Debug)]
pub enum HttpError {
    InvalidFormLength { expected: usize, got: usize },
    InvalidFormBoundary,
    RouteNotFound,
    ServicePanicked,
}

impl HttpError {
    pub fn status_code(&self) -> (r: u16)
        ensures
            self is InvalidFormLength || self is InvalidFormBoundary ==> r == 400,
            self is RouteNotFound ==> r == 404,
            self is ServicePanicked ==> r == 500,
    {
        match self {
            HttpError::InvalidFormBoundary => 400,
            HttpError::InvalidFormLength { .. } => 400,
            HttpError::RouteNotFound => 404,
            HttpError::ServicePanicked => 500,
        }
    }

    pub fn custom_code(&self) -> (r: u8)
        ensures
            self is InvalidFormLength ==> r == 1,
            self is InvalidFormBoundary ==> r == 2,
            self is RouteNotFound ==> r == 100,
            self is ServicePanicked ==> r == 255,
    {
        match self {
            HttpError::InvalidFormLength { .. } => 1,
            HttpError::InvalidFormBoundary => 2,
            HttpError::RouteNotFound => 100,
            HttpError::ServicePanicked => 255,
        }
    }
}

/// Any error that a request can end with.
#[derive(Debug)]
pub enum DownloaderError {
    Object(ObjectError),
    Http(HttpError),
    Auth(AuthError),
    /// A message and the status it carries.
    Other(String, u16),
}

/// The error-category prefix of each kind of error.
pub open spec fn category(e: &DownloaderError) -> u32 {
    match e {
        DownloaderError::Object(..) => 2,
        DownloaderError::Http(..) => 3,
        DownloaderError::Auth(..) => 4,
        DownloaderError::Other(..) => 0,
    }
}

/// The index of each variant within its category.
pub open spec fn variant_index(e: &DownloaderError) -> u32 {
    match e {
        DownloaderError::Object(ObjectError::IoError(..)) => 1,
        DownloaderError::Object(ObjectError::NotFound) => 2,
        DownloaderError::Http(HttpError::InvalidFormLength { .. }) => 1,
        DownloaderError::Http(HttpError::InvalidFormBoundary) => 2,
        DownloaderError::Http(HttpError::RouteNotFound) => 100,
        DownloaderError::Http(HttpError::ServicePanicked) => 255,
        DownloaderError::Auth(AuthError::GenerateTokenFailed) => 1,
        DownloaderError::Auth(AuthError::TokenExpirationTooLong { .. }) => 2,
        DownloaderError::Auth(AuthError::InvalidToken) => 3,
        DownloaderError::Auth(AuthError::ExpiredToken) => 4,
        DownloaderError::Auth(AuthError::ImatureToken) => 5,
        DownloaderError::Auth(AuthError::AuthorizationRequired) => 6,
        DownloaderError::Auth(AuthError::InvalidAuthHeader) => 7,
        DownloaderError::Auth(AuthError::InvalidAuthStrategy(..)) => 8,
        DownloaderError::Auth(AuthError::AccessDenied) => 9,
        DownloaderError::Auth(AuthError::HigherPermissionRequired) => 10,
        DownloaderError::Other(..) => 0,
    }
}

/// The HTTP status of each error.
pub open spec fn status_of(e: &DownloaderError) -> u16 {
    match e {
        DownloaderError::Object(ObjectError::IoError(..)) => 500,
        DownloaderError::Object(ObjectError::NotFound) => 404,
        DownloaderError::Http(HttpError::RouteNotFound) => 404,
        DownloaderError::Http(HttpError::ServicePanicked) => 500,
        DownloaderError::Http(..) => 400,
        DownloaderError::Auth(AuthError::GenerateTokenFailed) => 500,
        DownloaderError::Auth(AuthError::InvalidToken) => 401,
        DownloaderError::Auth(AuthError::ExpiredToken) => 401,
        DownloaderError::Auth(AuthError::ImatureToken) => 401,
        DownloaderError::Auth(AuthError::AccessDenied) => 403,
        DownloaderError::Auth(AuthError::HigherPermissionRequired) => 403,
        DownloaderError::Auth(..) => 400,
        DownloaderError::Other(_, code) => *code,
    }
}

impl DownloaderError {
    pub fn status_code(&self) -> (r: u16)
        ensures
            r == status_of(self),
    {
        match self {
            DownloaderError::Object(e) => e.status_code(),
            DownloaderError::Http(e) => e.status_code(),
            DownloaderError::Auth(e) => e.status_code(),
            DownloaderError::Other(_, code) => *code,
        }
    }

    /// The stable numeric code: the category prefix times 1000 plus the
    /// variant's index within its category.
    pub fn custom_code(&self) -> (r: u32)
        ensures
            r == category(self) * 1000 + variant_index(self),
    {
        let (c, ic): (u32, u8) = match self {
            DownloaderError::Object(e) => (2, e.custom_code()),
            DownloaderError::Http(e) => (3, e.custom_code()),
            DownloaderError::Auth(e) => (4, e.custom_code()),
            DownloaderError::Other(..) => (0, 0),
        };
        c * 1000 + ic as u32
    }

    /// The envelope sent to a client for this error, with its message.
    pub fn response(&self, error: String) -> (r: ErrorResponse)
        ensures
            r.error == error,
            r.error_code == category(self) * 1000 + variant_index(self),
            r.status_code == status_of(self),
    {
        let status_code = self.status_code();
        let error_code = self.custom_code();
        ErrorResponse { error, error_code, status_code }
    }
}

/// The error envelope: a message, the stable numeric code and the HTTP
/// status.
#[derive(Debug)]
pub struct ErrorResponse {
    pub error: String,
    pub error_code: u32,
    pub status_code: u16,
}

} // verus!
