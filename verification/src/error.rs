//! Errors of the server and the HTTP status and message each is answered with.
use vstd::prelude::*;
use crate::text::{chars_of, string_of};

verus! {

/// Errors raised by the provider layer and the shared infrastructure.
pub enum CoreError {
    NotFound,
    RateLimited,
    Database(String),
    Cache(String),
    Internal(String),
    Provider(String),
    Upstream(String),
}

/// Errors a request handler answers with.
pub enum AppError {
    NotFound,
    Unauthorized,
    Internal(String),
    BadRequest(String),
    Core(CoreError),
}

/// Result of a request handler.
pub type AppResult<T> = Result<T, AppError>;

impl From<CoreError> for AppError {
    fn from(e: CoreError) -> (res: AppError) {
        AppError::Core(e)
    }
}

impl vstd::std_specs::convert::FromSpecImpl<CoreError> for AppError {
    open spec fn obeys_from_spec() -> bool {
        true
    }

    open spec fn from_spec(v: CoreError) -> AppError {
        AppError::Core(v)
    }
}

/// The HTTP status an error is answered with.
pub open spec fn status_of(e: AppError) -> u16 {
    match e {
        AppError::NotFound => 404,
        AppError::Unauthorized => 401,
        AppError::BadRequest(_) => 400,
        AppError::Internal(_) => 500,
        AppError::Core(CoreError::NotFound) => 404,
        AppError::Core(CoreError::RateLimited) => 429,
        AppError::Core(_) => 500,
    }
}

/// The message of the JSON body `{"error": <message>}` an error is answered with.
pub open spec fn message_of(e: AppError) -> Seq<char> {
    match e {
        AppError::NotFound => "Not found"@,
        AppError::Unauthorized => "Unauthorized"@,
        AppError::BadRequest(m) => m@,
        AppError::Internal(m) => m@,
        AppError::Core(CoreError::NotFound) => "Resource not found"@,
        AppError::Core(CoreError::RateLimited) => "Rate limited"@,
        AppError::Core(_) => "Internal server error"@,
    }
}

impl AppError {
    /// The status code and error message this error is answered with.
    pub fn status_and_message(self) -> (res: (u16, String))
        ensures
            res.0 == status_of(self),
            res.1@ == message_of(self),
    {
        match self {
            AppError::NotFound => (404, string_of(&chars_of("Not found"))),
            AppError::Unauthorized => (401, string_of(&chars_of("Unauthorized"))),
            AppError::BadRequest(m) => (400, m),
            AppError::Internal(m) => (500, m),
            AppError::Core(CoreError::NotFound) => (404, string_of(&chars_of("Resource not found"))),
            AppError::Core(CoreError::RateLimited) => (429, string_of(&chars_of("Rate limited"))),
            AppError::Core(_) => (500, string_of(&chars_of("Internal server error"))),
        }
    }
}

} // verus!
