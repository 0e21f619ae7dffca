use vstd::prelude::*;

verus! {

/// The error taxonomy surfaced to clients.
#[derive(Debug, Clone)]
pub enum ApiError {
    NotFound(String),
    BadRequest(String),
    ValidationFailed(String),
    DbError(String),
    Unauthorized(String),
    HashError,
    PoolError,
}

/// HTTP status code that each kind of error maps to.
pub open spec fn status_of(e: ApiError) -> u16 {
    match e {
        ApiError::NotFound(_) => 404,
        ApiError::BadRequest(_) => 400,
        ApiError::ValidationFailed(_) => 400,
        ApiError::DbError(_) => 500,
        ApiError::Unauthorized(_) => 401,
        ApiError::HashError => 500,
        ApiError::PoolError => 500,
    }
}

/// Client-facing text of an error: the carried message, or a fixed one.
pub open spec fn message_of(e: ApiError) -> Seq<char> {
    match e {
        ApiError::NotFound(m) => m@,
        ApiError::BadRequest(m) => m@,
        ApiError::ValidationFailed(m) => m@,
        ApiError::DbError(m) => m@,
        ApiError::Unauthorized(m) => m@,
        ApiError::HashError => "Hashing failed"@,
        ApiError::PoolError => "Database unavailable"@,
    }
}

impl ApiError {
    /// The status code of the response that reports this error.
    pub fn status_code(&self) -> (r: u16)
        ensures
            r == status_of(*self),
    {
        match self {
            ApiError::NotFound(_) => 404,
            ApiError::BadRequest(_) => 400,
            ApiError::ValidationFailed(_) => 400,
            ApiError::DbError(_) => 500,
            ApiError::Unauthorized(_) => 401,
            ApiError::HashError => 500,
            ApiError::PoolError => 500,
        }
    }

    /// The message of the response body that reports this error.
    pub fn message(&self) -> (r: String)
        ensures
            r@ == message_of(*self),
    {
        match self {
            ApiError::NotFound(m) => m.clone(),
            ApiError::BadRequest(m) => m.clone(),
            ApiError::ValidationFailed(m) => m.clone(),
            ApiError::DbError(m) => m.clone(),
            ApiError::Unauthorized(m) => m.clone(),
            ApiError::HashError => {
                proof {
                    reveal_strlit("Hashing failed");
                }
                "Hashing failed".to_owned()
            },
            ApiError::PoolError => {
                proof {
                    reveal_strlit("Database unavailable");
                }
                "Database unavailable".to_owned()
            },
        }
    }

    /// The error reported for a failed persistence call: a missing record is
    /// `NotFound`, anything else a generic `DbError` with no internal detail.
    pub fn from_db_failure(not_found: bool) -> (r: ApiError)
        ensures
            not_found ==> (r matches ApiError::NotFound(m) && m@ == "Record not found"@),
            !not_found ==> (r matches ApiError::DbError(m) && m@ == "Database error"@),
    {
        proof {
            reveal_strlit("Record not found");
            reveal_strlit("Database error");
        }
        if not_found {
            ApiError::NotFound("Record not found".to_owned())
        } else {
            ApiError::DbError("Database error".to_owned())
        }
    }

    /// The error reported when the account store cannot be reached or a
    /// query on it fails during registration, login or an account lookup:
    /// a generic message with no internal detail.
    pub fn storage_failure() -> (r: ApiError)
        ensures
            r matches ApiError::DbError(m) && m@ == "DB error"@,
            status_of(r) == 500,
    {
        proof {
            reveal_strlit("DB error");
        }
        ApiError::DbError("DB error".to_owned())
    }

    /// The error reported for a payload that fails validation.
    pub fn invalid_payload() -> (r: ApiError)
        ensures
            r matches ApiError::ValidationFailed(m) && m@ == "Invalid payload"@,
    {
        proof {
            reveal_strlit("Invalid payload");
        }
        ApiError::ValidationFailed("Invalid payload".to_owned())
    }
}

} // verus!
