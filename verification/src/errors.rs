use vstd::prelude::*;

verus! {

/// The failure taxonomy: every externally reachable fault of the service maps
/// onto exactly one of these kinds and is rendered through the uniform error
/// body `{status, error}`.
#[derive(Clone, Copy, Debug, PartialEq, Eq, Structural)]
pub enum ApiError {
    /// No, invalid or expired token, or bad login credentials.
    Unauthenticated,
    /// Valid identity, insufficient role.
    Forbidden,
    /// Malformed or semantically invalid input, e.g. an unknown role name.
    BadRequest,
    /// Uniqueness violation on registration.
    Conflict,
    /// Missing file.
    NotFound,
    /// Unexpected persistence, hashing or signing fault.
    Internal,
}

impl ApiError {
    /// The HTTP status code this error kind is rendered with.
    pub open spec fn spec_status_code(self) -> u16 {
        match self {
            ApiError::Unauthenticated => 401,
            ApiError::Forbidden => 403,
            ApiError::BadRequest => 400,
            ApiError::Conflict => 409,
            ApiError::NotFound => 404,
            ApiError::Internal => 500,
        }
    }

    /// The human-readable message of the uniform error body.
    pub open spec fn spec_message(self) -> Seq<char> {
        match self {
            ApiError::Unauthenticated => "Unauthorized"@,
            ApiError::Forbidden => "Forbidden"@,
            ApiError::BadRequest => "Bad Request"@,
            ApiError::Conflict => "Conflict"@,
            ApiError::NotFound => "Not Found"@,
            ApiError::Internal => "Internal Server Error"@,
        }
    }

    pub fn status_code(&self) -> (r: u16)
        ensures
            r == self.spec_status_code(),
    {
        match self {
            ApiError::Unauthenticated => 401,
            ApiError::Forbidden => 403,
            ApiError::BadRequest => 400,
            ApiError::Conflict => 409,
            ApiError::NotFound => 404,
            ApiError::Internal => 500,
        }
    }

    pub fn message(&self) -> (r: &'static str)
        ensures
            r@ == self.spec_message(),
    {
        match self {
            ApiError::Unauthenticated => "Unauthorized",
            ApiError::Forbidden => "Forbidden",
            ApiError::BadRequest => "Bad Request",
            ApiError::Conflict => "Conflict",
            ApiError::NotFound => "Not Found",
            ApiError::Internal => "Internal Server Error",
        }
    }
}

} // verus!
