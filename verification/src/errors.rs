//! Error vocabulary shared by every layer, and the rules that turn failures of
//! the HTTP client and of SQLite into it.
use vstd::prelude::*;

use crate::text::{owned, push_str};

verus! {

/// Machine-readable error codes; their wire names are the `SCREAMING_CASE` strings.
#[derive(Debug, Clone, Copy, PartialEq, Eq, Structural)]
pub enum ErrorCode {
    ValidationError,
    MissingPixivCookie,
    PixivAuthFailed,
    PixivNotFound,
    PixivForbidden,
    PixivRateLimited,
    PixivNetworkError,
    PixivParseError,
    R18PolicySkipped,
    FilesystemWriteFailed,
    FilesystemPathCollision,
    SqliteError,
    AiConfigMissing,
    AiParseFailed,
    TaskCancelled,
    TaskNotFound,
    InternalError,
}

impl ErrorCode {
    /// An error of the task store itself: SQLite failed, a write was
    /// refused, or a stored record was not what it should be.
    pub open spec fn is_store_error(self) -> bool {
        self is SqliteError || self is ValidationError || self is InternalError
    }

    pub open spec fn name(self) -> Seq<char> {
        match self {
            ErrorCode::ValidationError => "VALIDATION_ERROR"@,
            ErrorCode::MissingPixivCookie => "MISSING_PIXIV_COOKIE"@,
            ErrorCode::PixivAuthFailed => "PIXIV_AUTH_FAILED"@,
            ErrorCode::PixivNotFound => "PIXIV_NOT_FOUND"@,
            ErrorCode::PixivForbidden => "PIXIV_FORBIDDEN"@,
            ErrorCode::PixivRateLimited => "PIXIV_RATE_LIMITED"@,
            ErrorCode::PixivNetworkError => "PIXIV_NETWORK_ERROR"@,
            ErrorCode::PixivParseError => "PIXIV_PARSE_ERROR"@,
            ErrorCode::R18PolicySkipped => "R18_POLICY_SKIPPED"@,
            ErrorCode::FilesystemWriteFailed => "FILESYSTEM_WRITE_FAILED"@,
            ErrorCode::FilesystemPathCollision => "FILESYSTEM_PATH_COLLISION"@,
            ErrorCode::SqliteError => "SQLITE_ERROR"@,
            ErrorCode::AiConfigMissing => "AI_CONFIG_MISSING"@,
            ErrorCode::AiParseFailed => "AI_PARSE_FAILED"@,
            ErrorCode::TaskCancelled => "TASK_CANCELLED"@,
            ErrorCode::TaskNotFound => "TASK_NOT_FOUND"@,
            ErrorCode::InternalError => "INTERNAL_ERROR"@,
        }
    }

    pub fn as_str(&self) -> (s: &'static str)
        ensures
            s@ == self.name(),
    {
        match self {
            ErrorCode::ValidationError => "VALIDATION_ERROR",
            ErrorCode::MissingPixivCookie => "MISSING_PIXIV_COOKIE",
            ErrorCode::PixivAuthFailed => "PIXIV_AUTH_FAILED",
            ErrorCode::PixivNotFound => "PIXIV_NOT_FOUND",
            ErrorCode::PixivForbidden => "PIXIV_FORBIDDEN",
            ErrorCode::PixivRateLimited => "PIXIV_RATE_LIMITED",
            ErrorCode::PixivNetworkError => "PIXIV_NETWORK_ERROR",
            ErrorCode::PixivParseError => "PIXIV_PARSE_ERROR",
            ErrorCode::R18PolicySkipped => "R18_POLICY_SKIPPED",
            ErrorCode::FilesystemWriteFailed => "FILESYSTEM_WRITE_FAILED",
            ErrorCode::FilesystemPathCollision => "FILESYSTEM_PATH_COLLISION",
            ErrorCode::SqliteError => "SQLITE_ERROR",
            ErrorCode::AiConfigMissing => "AI_CONFIG_MISSING",
            ErrorCode::AiParseFailed => "AI_PARSE_FAILED",
            ErrorCode::TaskCancelled => "TASK_CANCELLED",
            ErrorCode::TaskNotFound => "TASK_NOT_FOUND",
            ErrorCode::InternalError => "INTERNAL_ERROR",
        }
    }
}

/// The HTTP status the API answers an error of this code with.
pub open spec fn status_of(code: ErrorCode) -> u16 {
    match code {
        ErrorCode::ValidationError | ErrorCode::MissingPixivCookie | ErrorCode::AiConfigMissing => 400,
        ErrorCode::PixivAuthFailed => 401,
        ErrorCode::PixivForbidden => 403,
        ErrorCode::PixivNotFound | ErrorCode::TaskNotFound => 404,
        ErrorCode::PixivRateLimited => 429,
        ErrorCode::PixivNetworkError | ErrorCode::PixivParseError => 502,
        _ => 500,
    }
}

/// Which errors the API answers with which HTTP status: bad request exactly
/// for refused input and missing configuration, Pixiv's own refusals passed
/// on as 401, 403, 404 and 429 (404 also for an unknown task), bad gateway
/// exactly when Pixiv could not be reached or read, and a server error for
/// everything else (the store, the file system, the AI reply, a skip or a
/// cancellation reaching the API).
pub proof fn lemma_status_classes(code: ErrorCode)
    ensures
        status_of(code) == 400 <==> (code == ErrorCode::ValidationError || code == ErrorCode::MissingPixivCookie
            || code == ErrorCode::AiConfigMissing),
        status_of(code) == 401 <==> code == ErrorCode::PixivAuthFailed,
        status_of(code) == 403 <==> code == ErrorCode::PixivForbidden,
        status_of(code) == 404 <==> (code == ErrorCode::PixivNotFound || code == ErrorCode::TaskNotFound),
        status_of(code) == 429 <==> code == ErrorCode::PixivRateLimited,
        status_of(code) == 502 <==> (code == ErrorCode::PixivNetworkError || code == ErrorCode::PixivParseError),
        status_of(code) == 500 <==> (code == ErrorCode::R18PolicySkipped || code == ErrorCode::FilesystemWriteFailed
            || code == ErrorCode::FilesystemPathCollision || code == ErrorCode::SqliteError || code
            == ErrorCode::AiParseFailed || code == ErrorCode::TaskCancelled || code == ErrorCode::InternalError),
{
}

impl ErrorCode {
    /// The HTTP status of an API error with this code: bad requests for
    /// invalid input and missing configuration, Pixiv's own refusals passed
    /// on, bad gateway for Pixiv failures, and a server error otherwise.
    pub fn http_status(&self) -> (r: u16)
        ensures
            r == status_of(*self),
    {
        match self {
            ErrorCode::ValidationError | ErrorCode::MissingPixivCookie | ErrorCode::AiConfigMissing => 400,
            ErrorCode::PixivAuthFailed => 401,
            ErrorCode::PixivForbidden => 403,
            ErrorCode::PixivNotFound | ErrorCode::TaskNotFound => 404,
            ErrorCode::PixivRateLimited => 429,
            ErrorCode::PixivNetworkError | ErrorCode::PixivParseError => 502,
            ErrorCode::FilesystemWriteFailed
            | ErrorCode::FilesystemPathCollision
            | ErrorCode::SqliteError
            | ErrorCode::AiParseFailed
            | ErrorCode::TaskCancelled
            | ErrorCode::R18PolicySkipped
            | ErrorCode::InternalError => 500,
        }
    }
}

/// An error with its code and a human-readable message.
#[derive(Debug, Clone, PartialEq, Eq)]
pub struct AppError {
    pub code: ErrorCode,
    pub message: String,
}

impl AppError {
    pub fn new(code: ErrorCode, message: &str) -> (e: AppError)
        ensures
            e.code == code,
            e.message@ == message@,
    {
        AppError { code, message: owned(message) }
    }

    pub fn validation(message: &str) -> (e: AppError)
        ensures
            e.code == ErrorCode::ValidationError,
            e.message@ == message@,
    {
        AppError::new(ErrorCode::ValidationError, message)
    }

    /// A copy of this error.
    pub fn duplicate(&self) -> (e: AppError)
        ensures
            e.code == self.code,
            e.message@ == self.message@,
    {
        AppError { code: self.code, message: self.message.clone() }
    }

    /// The text `Display` gives: `CODE: message`.
    pub fn to_display_string(&self) -> (s: String)
        ensures
            s@ == self.code.name() + ": "@ + self.message@,
    {
        let mut s = owned(self.code.as_str());
        push_str(&mut s, ": ");
        push_str(&mut s, self.message.as_str());
        s
    }

    /// The error an HTTP failure becomes: 401, 403, 404 and 429 responses
    /// have codes and fixed messages of their own; anything else, including a
    /// failure without a status, is a network error carrying `text`.
    pub fn from_http_status(status: Option<u16>, text: &str) -> (e: AppError)
        ensures
            e.code == http_error_code(status),
            e.message@ == http_error_message(status, text@),
    {
        match status {
            Some(401) => AppError::new(ErrorCode::PixivAuthFailed, "Pixiv authentication failed"),
            Some(403) => AppError::new(ErrorCode::PixivForbidden, "Pixiv refused access"),
            Some(404) => AppError::new(ErrorCode::PixivNotFound, "Pixiv resource was not found"),
            Some(429) => AppError::new(
                ErrorCode::PixivRateLimited,
                "Pixiv rate limited the request",
            ),
            _ => AppError::new(ErrorCode::PixivNetworkError, text),
        }
    }

    /// The error a failure of `reqwest` becomes, by its status and its text.
    pub fn from_http_error(error: &reqwest::Error) -> (e: AppError)
        ensures
            e.code == http_error_code(reqwest_status(*error)),
            e.message@ == http_error_message(reqwest_status(*error), reqwest_text(*error)),
    {
        let status = reqwest_error_status(error);
        let text = reqwest_error_text(error);
        AppError::from_http_status(status, text.as_str())
    }

    /// The error a failure of SQLite becomes: code `SQLITE_ERROR` with SQLite's text.
    pub fn from_sqlite_error(error: &rusqlite::Error) -> (e: AppError)
        ensures
            e.code == ErrorCode::SqliteError,
            e.message@ == sqlite_text(*error),
    {
        let text = rusqlite_error_text(error);
        AppError::new(ErrorCode::SqliteError, text.as_str())
    }
}

pub open spec fn http_error_code(status: Option<u16>) -> ErrorCode {
    match status {
        Some(401) => ErrorCode::PixivAuthFailed,
        Some(403) => ErrorCode::PixivForbidden,
        Some(404) => ErrorCode::PixivNotFound,
        Some(429) => ErrorCode::PixivRateLimited,
        _ => ErrorCode::PixivNetworkError,
    }
}

pub open spec fn http_error_message(status: Option<u16>, text: Seq<char>) -> Seq<char> {
    match status {
        Some(401) => "Pixiv authentication failed"@,
        Some(403) => "Pixiv refused access"@,
        Some(404) => "Pixiv resource was not found"@,
        Some(429) => "Pixiv rate limited the request"@,
        _ => text,
    }
}

#[verifier::external_type_specification]
#[verifier::external_body]
pub struct ExReqwestError(reqwest::Error);

#[verifier::external_type_specification]
#[verifier::external_body]
pub struct ExRusqliteError(rusqlite::Error);

/// What `reqwest::Error::status` returns, as a number.
pub uninterp spec fn reqwest_status(error: reqwest::Error) -> Option<u16>;

/// What `reqwest::Error`'s `Display` writes.
pub uninterp spec fn reqwest_text(error: reqwest::Error) -> Seq<char>;

/// What `rusqlite::Error`'s `Display` writes.
pub uninterp spec fn sqlite_text(error: rusqlite::Error) -> Seq<char>;

/// `reqwest::Error::status`: the HTTP status of the response that failed, if
/// the failure came from a response; the contract names that result.
#[verifier::external_body]
fn reqwest_error_status(error: &reqwest::Error) -> (r: Option<u16>)
    ensures
        r == reqwest_status(*error),
{
    error.status().map(|status| status.as_u16())
}

/// `reqwest::Error`'s `to_string`; the contract names the text.
#[verifier::external_body]
fn reqwest_error_text(error: &reqwest::Error) -> (r: String)
    ensures
        r@ == reqwest_text(*error),
{
    error.to_string()
}

/// `rusqlite::Error`'s `to_string`; the contract names the text.
#[verifier::external_body]
fn rusqlite_error_text(error: &rusqlite::Error) -> (r: String)
    ensures
        r@ == sqlite_text(*error),
{
    error.to_string()
}

} // verus!
