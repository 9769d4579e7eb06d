//! The error type shared by both services, its HTTP mapping (status, OAuth2
//! error code, description) and its text, and the mapping of storage errors.

use vstd::prelude::*;

verus! {

/// Errors returned by the services; each maps to one HTTP status and one
/// OAuth2-style error code.
#[derive(Debug, Clone, PartialEq, Eq)]
pub enum ServiceError {
    NotFound,
    InternalError(String),
    Unauthorized(String),
    Forbidden(String),
    Conflict(String),
    BadRequest(String),
    InvalidClient(String),
    InvalidGrant(String),
    InvalidRequest(String),
}

/// A storage failure, as far as the services tell failures apart: no row
/// matched, a unique constraint was violated, or anything else. The text is
/// the storage layer's own description of the error.
#[derive(Debug, Clone, PartialEq, Eq)]
pub enum DbError {
    RowNotFound,
    UniqueViolation(String),
    Other(String),
}

/// How a storage error becomes a service error: a missing row is `NotFound`,
/// anything else an internal error carrying the storage error's text.
pub open spec fn from_db_spec(e: DbError) -> ServiceError {
    match e {
        DbError::RowNotFound => ServiceError::NotFound,
        DbError::UniqueViolation(m) => ServiceError::InternalError(m),
        DbError::Other(m) => ServiceError::InternalError(m),
    }
}

/// HTTP status of an error response.
pub open spec fn status_of(e: ServiceError) -> u16 {
    match e {
        ServiceError::NotFound => 404,
        ServiceError::InternalError(_) => 500,
        ServiceError::Unauthorized(_) => 401,
        ServiceError::Forbidden(_) => 403,
        ServiceError::Conflict(_) => 409,
        ServiceError::BadRequest(_) => 400,
        ServiceError::InvalidClient(_) => 401,
        ServiceError::InvalidGrant(_) => 400,
        ServiceError::InvalidRequest(_) => 400,
    }
}

/// The `error` field of an error response body.
pub open spec fn code_of(e: ServiceError) -> Seq<char> {
    match e {
        ServiceError::NotFound => "not_found"@,
        ServiceError::InternalError(_) => "server_error"@,
        ServiceError::Unauthorized(_) => "access_denied"@,
        ServiceError::Forbidden(_) => "forbidden"@,
        ServiceError::Conflict(_) => "conflict"@,
        ServiceError::BadRequest(_) => "bad_request"@,
        ServiceError::InvalidClient(_) => "invalid_client"@,
        ServiceError::InvalidGrant(_) => "invalid_grant"@,
        ServiceError::InvalidRequest(_) => "invalid_request"@,
    }
}

/// The `error_description` field of an error response body, where there is one.
pub open spec fn description_of(e: ServiceError) -> Option<Seq<char>> {
    match e {
        ServiceError::NotFound => None,
        ServiceError::InternalError(m) => Some(m@),
        ServiceError::Unauthorized(m) => Some(m@),
        ServiceError::Forbidden(m) => Some(m@),
        ServiceError::Conflict(m) => Some(m@),
        ServiceError::BadRequest(m) => Some(m@),
        ServiceError::InvalidClient(m) => Some(m@),
        ServiceError::InvalidGrant(m) => Some(m@),
        ServiceError::InvalidRequest(m) => Some(m@),
    }
}

/// The human-readable text of an error.
pub open spec fn message_of(e: ServiceError) -> Seq<char> {
    match e {
        ServiceError::NotFound => "Resource not found"@,
        ServiceError::InternalError(m) => "Internal error: "@ + m@,
        ServiceError::Unauthorized(m) => "Unauthorized: "@ + m@,
        ServiceError::Forbidden(m) => "Forbidden: "@ + m@,
        ServiceError::Conflict(m) => "Conflict: "@ + m@,
        ServiceError::BadRequest(m) => "Bad request: "@ + m@,
        ServiceError::InvalidClient(m) => "Invalid client: "@ + m@,
        ServiceError::InvalidGrant(m) => "Invalid grant: "@ + m@,
        ServiceError::InvalidRequest(m) => "Invalid request: "@ + m@,
    }
}

/// `prefix` followed by `rest`, as a new string.
pub fn concat_str(prefix: &str, rest: &str) -> (s: String)
    ensures
        s@ == prefix@ + rest@,
{
    let mut s = String::from_str(prefix);
    s.append(rest);
    s
}

impl ServiceError {
    /// HTTP status of the error response.
    pub fn status_code(&self) -> (r: u16)
        ensures
            r == status_of(*self),
    {
        match self {
            ServiceError::NotFound => 404,
            ServiceError::InternalError(_) => 500,
            ServiceError::Unauthorized(_) => 401,
            ServiceError::Forbidden(_) => 403,
            ServiceError::Conflict(_) => 409,
            ServiceError::BadRequest(_) => 400,
            ServiceError::InvalidClient(_) => 401,
            ServiceError::InvalidGrant(_) => 400,
            ServiceError::InvalidRequest(_) => 400,
        }
    }

    /// The `error` code of the error response body.
    pub fn error_code(&self) -> (r: &'static str)
        ensures
            r@ == code_of(*self),
    {
        match self {
            ServiceError::NotFound => "not_found",
            ServiceError::InternalError(_) => "server_error",
            ServiceError::Unauthorized(_) => "access_denied",
            ServiceError::Forbidden(_) => "forbidden",
            ServiceError::Conflict(_) => "conflict",
            ServiceError::BadRequest(_) => "bad_request",
            ServiceError::InvalidClient(_) => "invalid_client",
            ServiceError::InvalidGrant(_) => "invalid_grant",
            ServiceError::InvalidRequest(_) => "invalid_request",
        }
    }

    /// The `error_description` of the error response body (absent for `NotFound`).
    pub fn description(&self) -> (r: Option<String>)
        ensures
            match r {
                Some(m) => description_of(*self) == Some(m@),
                None => description_of(*self) is None,
            },
    {
        match self {
            ServiceError::NotFound => None,
            ServiceError::InternalError(m) => Some(m.clone()),
            ServiceError::Unauthorized(m) => Some(m.clone()),
            ServiceError::Forbidden(m) => Some(m.clone()),
            ServiceError::Conflict(m) => Some(m.clone()),
            ServiceError::BadRequest(m) => Some(m.clone()),
            ServiceError::InvalidClient(m) => Some(m.clone()),
            ServiceError::InvalidGrant(m) => Some(m.clone()),
            ServiceError::InvalidRequest(m) => Some(m.clone()),
        }
    }

    /// The text of the error (what `to_string` gives for it).
    pub fn message(&self) -> (r: String)
        ensures
            r@ == message_of(*self),
    {
        match self {
            ServiceError::NotFound => String::from_str("Resource not found"),
            ServiceError::InternalError(m) => concat_str("Internal error: ", m.as_str()),
            ServiceError::Unauthorized(m) => concat_str("Unauthorized: ", m.as_str()),
            ServiceError::Forbidden(m) => concat_str("Forbidden: ", m.as_str()),
            ServiceError::Conflict(m) => concat_str("Conflict: ", m.as_str()),
            ServiceError::BadRequest(m) => concat_str("Bad request: ", m.as_str()),
            ServiceError::InvalidClient(m) => concat_str("Invalid client: ", m.as_str()),
            ServiceError::InvalidGrant(m) => concat_str("Invalid grant: ", m.as_str()),
            ServiceError::InvalidRequest(m) => concat_str("Invalid request: ", m.as_str()),
        }
    }
}

impl From<DbError> for ServiceError {
    fn from(err: DbError) -> (r: ServiceError) {
        match err {
            DbError::RowNotFound => ServiceError::NotFound,
            DbError::UniqueViolation(m) => ServiceError::InternalError(m),
            DbError::Other(m) => ServiceError::InternalError(m),
        }
    }
}

impl vstd::std_specs::convert::FromSpecImpl<DbError> for ServiceError {
    open spec fn obeys_from_spec() -> bool {
        true
    }

    open spec fn from_spec(err: DbError) -> ServiceError {
        from_db_spec(err)
    }
}

/// Maps a storage error to a service error (`ServiceError::from`).
pub fn service_error_from_db(err: DbError) -> (r: ServiceError)
    ensures
        r == from_db_spec(err),
{
    ServiceError::from(err)
}

} // verus!
