//! The failures a request can end in, and the HTTP status each maps to.

use vstd::prelude::*;

verus! {

/// Why a request was not authenticated.
#[derive(Clone, Copy, Debug, PartialEq, Eq, Structural)]
pub enum Unauthorized {
    /// No `Authorization` header, or one without a token segment.
    MissingHeader,
    /// The token was not accepted.
    InvalidToken,
    /// Unknown login, or a secret that does not match.
    BadCredentials,
}

/// A request that failed.
#[derive(Clone, Copy, Debug, PartialEq, Eq, Structural)]
pub enum ApiError {
    /// The caller is not authenticated.
    Unauthorized(Unauthorized),
    /// The login identifier is already taken.
    Conflict,
    /// No such resource.
    NotFound,
    /// Storage or signing failed.
    Internal,
}

/// Status of a login that succeeded.
pub const STATUS_OK: u16 = 200;

/// Status of a signup or of a creation that succeeded.
pub const STATUS_CREATED: u16 = 201;

impl Unauthorized {
    /// The machine-readable reason.
    pub open spec fn reason_of(self) -> Seq<char> {
        match self {
            Unauthorized::MissingHeader => "missing_header"@,
            Unauthorized::InvalidToken => "invalid_token"@,
            Unauthorized::BadCredentials => "bad_credentials"@,
        }
    }

    /// The machine-readable reason, as sent with the response.
    pub fn reason(&self) -> (text: &'static str)
        ensures
            text@ == self.reason_of(),
    {
        match self {
            Unauthorized::MissingHeader => "missing_header",
            Unauthorized::InvalidToken => "invalid_token",
            Unauthorized::BadCredentials => "bad_credentials",
        }
    }
}

impl ApiError {
    /// The HTTP status that reports this failure.
    pub open spec fn status_of(self) -> u16 {
        match self {
            ApiError::Unauthorized(_) => 401,
            ApiError::Conflict => 409,
            ApiError::NotFound => 404,
            ApiError::Internal => 500,
        }
    }

    /// The HTTP status that reports this failure.
    pub fn status_code(&self) -> (code: u16)
        ensures
            code == self.status_of(),
            400 <= code < 600,
    {
        match self {
            ApiError::Unauthorized(_) => 401,
            ApiError::Conflict => 409,
            ApiError::NotFound => 404,
            ApiError::Internal => 500,
        }
    }
}

} // verus!
