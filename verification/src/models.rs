//! The request and response shapes of the caller-facing boundary, and the
//! error type an HTTP layer maps onto status semantics. These are bare
//! values; a boundary keeps its own serialisable copies and converts.

use vstd::prelude::*;

use crate::service::QueryError;

verus! {

/// A request to open a new tutoring session for one student.
#[derive(Clone, Debug)]
pub struct CreateSessionRequest {
    pub student_id: String,
}

/// The newly created session's id, with a human-readable confirmation.
#[derive(Clone, Debug)]
pub struct CreateSessionResponse {
    pub session_id: String,
    pub message: String,
}

/// A request to process one query against an existing session.
#[derive(Clone, Debug)]
pub struct SendQueryRequest {
    pub student_id: String,
    pub session_id: String,
    pub query: String,
}

/// The tutor's reply to one query.
#[derive(Clone, Debug)]
pub struct SendQueryResponse {
    pub message: String,
}

/// The caller-facing failure taxonomy: bad input, an unknown session, or an
/// upstream failure, each with a human-readable message.
#[derive(Clone, Debug, PartialEq, Eq)]
pub enum AppError {
    NotFound(String),
    BadRequest(String),
    Internal(String),
}

impl AppError {
    /// Maps a query error onto the caller-facing taxonomy: blank input
    /// becomes a bad request, an unknown session is not found, and a provider
    /// failure is surfaced verbatim as internal.
    pub fn of_query_error(e: QueryError) -> (r: AppError)
        ensures
            match e {
                QueryError::InvalidArgument => r matches AppError::BadRequest(m) && m@
                    == "identifiers and query must not be blank"@,
                QueryError::SessionNotFound => r matches AppError::NotFound(m) && m@
                    == "Session not found"@,
                QueryError::ProviderError(pm) => r matches AppError::Internal(m) && m@ == pm@,
            },
    {
        match e {
            QueryError::InvalidArgument => AppError::BadRequest(
                "identifiers and query must not be blank".to_owned(),
            ),
            QueryError::SessionNotFound => AppError::NotFound("Session not found".to_owned()),
            QueryError::ProviderError(m) => AppError::Internal(m),
        }
    }
}

} // verus!
