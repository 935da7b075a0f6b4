//! What can go wrong, and what a caller is told about it.
//!
//! Failures of the user's input (a wrong file type, too large an image, a bad
//! payload) are answered with a status of the 400 class and a sentence the
//! user can act on. A missing image is a plain 404. Everything that went wrong
//! inside (the resizer, the disk, the database) is answered with one and the
//! same 500 page, so that no path or message of the machine leaks out.

use vstd::prelude::*;
use vstd::std_specs::convert::FromSpecImpl;
use vstd::string::*;

verus! {

/// A failure of the database layer.
#[derive(Debug, Clone, PartialEq, Eq)]
pub enum DatabaseError {
    /// The row that was asked for does not exist.
    NotFound,
    /// The database itself failed; the text is its message.
    Sqlx(String),
    /// A schema migration failed; the text is its message.
    Migrate(String),
}

/// A failure anywhere in the service. Variants that stand for a failure of an
/// outside component carry its message as text.
#[derive(Debug, Clone, PartialEq, Eq)]
pub enum AppError {
    Session(String),
    Multipart(String),
    Io(String),
    Join(String),
    Internal(String),
    Zauth(String),
    Reqwest(String),
    Database(DatabaseError),
    Magick(String),
    Env(String),
    Axum(String),
    ImageResTooLarge,
    NotFound,
    WrongFileType,
    NoFile,
    NotLoggedIn,
    BadApiKey,
    Forbidden,
    PayloadError(String),
}

pub const BAD_REQUEST: u16 = 400;

pub const UNAUTHORIZED: u16 = 401;

pub const FORBIDDEN: u16 = 403;

pub const NOT_FOUND: u16 = 404;

pub const PAYLOAD_TOO_LARGE: u16 = 413;

pub const INTERNAL_SERVER_ERROR: u16 = 500;

/// The HTTP status an error is answered with.
pub open spec fn error_status(e: AppError) -> u16 {
    match e {
        AppError::PayloadError(_) => BAD_REQUEST,
        AppError::NotLoggedIn => UNAUTHORIZED,
        AppError::BadApiKey => UNAUTHORIZED,
        AppError::Forbidden => FORBIDDEN,
        AppError::NoFile => BAD_REQUEST,
        AppError::Multipart(_) => BAD_REQUEST,
        AppError::ImageResTooLarge => PAYLOAD_TOO_LARGE,
        AppError::WrongFileType => BAD_REQUEST,
        AppError::NotFound => NOT_FOUND,
        _ => INTERNAL_SERVER_ERROR,
    }
}

/// The sentence an error is answered with.
pub open spec fn error_text(e: AppError) -> Seq<char> {
    match e {
        AppError::PayloadError(_) => "Payload error"@,
        AppError::NotLoggedIn => "Not logged in."@,
        AppError::BadApiKey => "Bad api key."@,
        AppError::Forbidden => "Forbidden."@,
        AppError::NoFile => "No file found in request. Please select an image."@,
        AppError::Multipart(_) => "There was a problem with your file upload. Please try again."@,
        AppError::ImageResTooLarge => "The image resolution is too large. Maximum is 10k x 10k pixels."@,
        AppError::WrongFileType => "Incorrect file type. Please upload a JPG, PNG, GIF, or WEBP file."@,
        AppError::NotFound => "We couldn't find that."@,
        _ => "Please help I have internal errors. D:"@,
    }
}

/// Whether an error is the user's to mend: it is answered in the 400 class.
pub open spec fn is_client_error(e: AppError) -> bool {
    400 <= error_status(e) < 500
}

/// What a database failure becomes in the service: a missing row is the
/// service's own `NotFound`, any other failure is carried along.
pub open spec fn from_database(value: DatabaseError) -> AppError {
    match value {
        DatabaseError::NotFound => AppError::NotFound,
        other => AppError::Database(other),
    }
}

impl AppError {
    /// The status and the sentence this error is answered with.
    pub fn error_page(&self) -> (page: (u16, &'static str))
        ensures
            page.0 == error_status(*self),
            page.1@ == error_text(*self),
    {
        match self {
            AppError::PayloadError(_) => (BAD_REQUEST, "Payload error"),
            AppError::NotLoggedIn => (UNAUTHORIZED, "Not logged in."),
            AppError::BadApiKey => (UNAUTHORIZED, "Bad api key."),
            AppError::Forbidden => (FORBIDDEN, "Forbidden."),
            AppError::NoFile => (BAD_REQUEST, "No file found in request. Please select an image."),
            AppError::Multipart(_) => (
                BAD_REQUEST,
                "There was a problem with your file upload. Please try again.",
            ),
            AppError::ImageResTooLarge => (
                PAYLOAD_TOO_LARGE,
                "The image resolution is too large. Maximum is 10k x 10k pixels.",
            ),
            AppError::WrongFileType => (
                BAD_REQUEST,
                "Incorrect file type. Please upload a JPG, PNG, GIF, or WEBP file.",
            ),
            AppError::NotFound => (NOT_FOUND, "We couldn't find that."),
            _ => (INTERNAL_SERVER_ERROR, "Please help I have internal errors. D:"),
        }
    }
}

impl From<DatabaseError> for AppError {
    fn from(value: DatabaseError) -> (e: AppError) {
        match value {
            DatabaseError::NotFound => AppError::NotFound,
            other => AppError::Database(other),
        }
    }
}

impl FromSpecImpl<DatabaseError> for AppError {
    open spec fn obeys_from_spec() -> bool {
        true
    }

    open spec fn from_spec(value: DatabaseError) -> AppError {
        from_database(value)
    }
}

/// An error of the 500 class never shows what it carries: whatever the
/// message inside, the page is the same.
pub proof fn lemma_internal_errors_share_one_page(a: AppError, b: AppError)
    requires
        error_status(a) == INTERNAL_SERVER_ERROR,
        error_status(b) == INTERNAL_SERVER_ERROR,
    ensures
        error_text(a) == error_text(b),
{
}

} // verus!
