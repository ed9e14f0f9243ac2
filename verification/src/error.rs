//! The failures of the service and the shape in which they reach a caller.

use vstd::prelude::*;

verus! {

/// HTTP status of a request that was served.
pub const STATUS_OK: u16 = 200;

/// HTTP status of a request that stored something new.
pub const STATUS_CREATED: u16 = 201;

/// HTTP status of a request that is malformed.
pub const STATUS_BAD_REQUEST: u16 = 400;

/// HTTP status of a request for something that is not there.
pub const STATUS_NOT_FOUND: u16 = 404;

/// HTTP status of a request on which the store failed.
pub const STATUS_INTERNAL_SERVER_ERROR: u16 = 500;

pub const CODE_DATABASE_ERROR: &'static str = "DATABASE_ERROR";

pub const CODE_NOT_FOUND: &'static str = "NOT_FOUND";

pub const CODE_BAD_REQUEST: &'static str = "BAD_REQUEST";

pub const MESSAGE_DATABASE_ERROR: &'static str = "Database error: ";

pub const MESSAGE_NOT_FOUND: &'static str = "Resource not found";

/// Why a request failed.
#[derive(Debug, Clone, PartialEq, Eq)]
pub enum AppError {
    /// The store reported a failure; the text is the store's own.
    Database(String),
    /// No row has the identifier that the request names.
    NotFound,
    /// The request is malformed; the text says how.
    BadRequest(String),
}

/// The body of the response to a failed request.
#[derive(Debug, Clone, PartialEq, Eq)]
pub struct ErrorResponse {
    /// A message for a human reader.
    pub error: String,
    /// A code for a program.
    pub code: String,
}

impl AppError {
    /// The HTTP status that answers this failure.
    pub open spec fn status(self) -> u16 {
        match self {
            AppError::Database(_) => STATUS_INTERNAL_SERVER_ERROR,
            AppError::NotFound => STATUS_NOT_FOUND,
            AppError::BadRequest(_) => STATUS_BAD_REQUEST,
        }
    }

    /// The code that names this kind of failure.
    pub open spec fn code(self) -> Seq<char> {
        match self {
            AppError::Database(_) => CODE_DATABASE_ERROR@,
            AppError::NotFound => CODE_NOT_FOUND@,
            AppError::BadRequest(_) => CODE_BAD_REQUEST@,
        }
    }

    /// The message that describes this failure.
    pub open spec fn message(self) -> Seq<char> {
        match self {
            AppError::Database(detail) => MESSAGE_DATABASE_ERROR@ + detail@,
            AppError::NotFound => MESSAGE_NOT_FOUND@,
            AppError::BadRequest(detail) => detail@,
        }
    }

    /// The response to a request that failed in this way: its HTTP status
    /// and its body.
    pub fn into_response(self) -> (r: (u16, ErrorResponse))
        ensures
            r.0 == self.status(),
            r.1.code@ == self.code(),
            r.1.error@ == self.message(),
    {
        match self {
            AppError::Database(detail) => {
                let mut error = String::from_str(MESSAGE_DATABASE_ERROR);
                error.append(detail.as_str());
                (
                    STATUS_INTERNAL_SERVER_ERROR,
                    ErrorResponse { error, code: String::from_str(CODE_DATABASE_ERROR) },
                )
            },
            AppError::NotFound => (
                STATUS_NOT_FOUND,
                ErrorResponse {
                    error: String::from_str(MESSAGE_NOT_FOUND),
                    code: String::from_str(CODE_NOT_FOUND),
                },
            ),
            AppError::BadRequest(detail) => (
                STATUS_BAD_REQUEST,
                ErrorResponse { error: detail, code: String::from_str(CODE_BAD_REQUEST) },
            ),
        }
    }
}

/// The answer to a write that names a row: `NotFound` where the store
/// touched no row, success where it touched one or more.
pub fn require_affected(rows_affected: u64) -> (r: Result<(), AppError>)
    ensures
        rows_affected == 0 ==> r == Err::<(), AppError>(AppError::NotFound),
        rows_affected != 0 ==> r is Ok,
{
    if rows_affected == 0 {
        Err(AppError::NotFound)
    } else {
        Ok(())
    }
}

/// The answer to a read that names a row: the row where the store found
/// one, `NotFound` where it found none.
pub fn require_found<T>(row: Option<T>) -> (r: Result<T, AppError>)
    ensures
        match row {
            Some(found) => r == Ok::<T, AppError>(found),
            None => r == Err::<T, AppError>(AppError::NotFound),
        },
{
    match row {
        Some(found) => Ok(found),
        None => Err(AppError::NotFound),
    }
}

} // verus!
