//! # API standard and JSON responses.
//!
//! This module provides useful types and methods to craft API replies from
//! an existing value. A handler's outcome is an explicit tagged result: a
//! success value to wrap as a JSON envelope, or a [`QueryError`] describing
//! why the backend query failed. [`into_json_response`] converts that
//! outcome into a uniform reply — the envelope, or a status code with a
//! short message — classifying client-attributable failures as 4xx and
//! everything else as a generic 500 that never exposes raw backend detail.

use vstd::prelude::*;

verus! {

/// A JSON envelope around a serializable value; the host framework writes
/// it on the wire.
pub struct Json<T>(pub T);

/// A reply: a JSON envelope on success, a status code with a message on
/// failure.
pub type ApiJsonResponse<T> = Result<Json<T>, (u16, String)>;

/// The outcome of a backend query: a value, or a classified failure.
pub type QueryResult<T> = Result<T, QueryError>;

/// How the backend classified a reported database error.
#[derive(Debug, Clone, PartialEq, Eq)]
pub enum DatabaseErrorKind {
    /// An INSERT or UPDATE violated a unique constraint, e.g. two INSERT
    /// with the same unique value.
    UniqueViolation,
    /// The query violated a foreign key constraint, e.g. an INSERT
    /// referring to a row that does not exist.
    ForeignKeyViolation,
    /// Any other database error; the client's responsibility is not
    /// involved.
    Other,
}

/// A failed backend query, with the backend's diagnostic message where one
/// was reported.
#[derive(Debug)]
pub enum QueryError {
    /// The query returned no result.
    NotFound,
    /// The database reported an error of the given kind.
    DatabaseError(DatabaseErrorKind, String),
    /// Any other failure; treated as server-side.
    Other(String),
}

/// The status code for one database error kind: conflict for a unique
/// violation, bad request for a foreign key violation, internal server
/// error otherwise.
pub open spec fn database_error_status(kind: DatabaseErrorKind) -> u16 {
    match kind {
        DatabaseErrorKind::UniqueViolation => 409,
        DatabaseErrorKind::ForeignKeyViolation => 400,
        DatabaseErrorKind::Other => 500,
    }
}

/// The status code a failed query maps to.
pub open spec fn status_of(error: QueryError) -> u16 {
    match error {
        QueryError::NotFound => 404,
        QueryError::DatabaseError(kind, _) => database_error_status(kind),
        QueryError::Other(_) => 500,
    }
}

/// The reply message for a failed query. Server-side failures all yield the
/// same generic text: the backend's own message never reaches the client.
pub open spec fn message_of(error: QueryError) -> Seq<char> {
    match error {
        QueryError::NotFound => "Not found"@,
        QueryError::DatabaseError(kind, _) => match kind {
            DatabaseErrorKind::UniqueViolation => "Unique constraint violation"@,
            DatabaseErrorKind::ForeignKeyViolation => "Foreign key constraint violation"@,
            DatabaseErrorKind::Other => "Internal server error"@,
        },
        QueryError::Other(_) => "Internal server error"@,
    }
}

impl QueryError {
    /// The status code this failure maps to.
    pub fn status_code(&self) -> (status: u16)
        ensures
            status == status_of(*self),
    {
        match self {
            QueryError::NotFound => build_not_found_response(),
            QueryError::DatabaseError(kind, message) => build_database_error_response(
                kind,
                message.as_str(),
            ),
            QueryError::Other(message) => build_internal_server_error_response(message.as_str()),
        }
    }

    /// The reply message this failure carries.
    pub fn response(&self) -> (message: String)
        ensures
            message@ == message_of(*self),
    {
        match self {
            QueryError::NotFound => "Not found".to_owned(),
            QueryError::DatabaseError(kind, _) => match kind {
                DatabaseErrorKind::UniqueViolation => "Unique constraint violation".to_owned(),
                DatabaseErrorKind::ForeignKeyViolation => {
                    "Foreign key constraint violation".to_owned()
                },
                DatabaseErrorKind::Other => "Internal server error".to_owned(),
            },
            QueryError::Other(_) => "Internal server error".to_owned(),
        }
    }
}

/// Consumes a query outcome and creates a JSON or a status reply.
///
/// A value is wrapped as is. A failure becomes its status code and message:
/// 404 when the query returned no result, 409 on a unique constraint
/// violation, 400 on a foreign key violation, 500 for everything else.
pub fn into_json_response<T>(result: Result<T, QueryError>) -> (reply: ApiJsonResponse<T>)
    ensures
        result matches Ok(value) ==> (reply matches Ok(json) && json.0 == value),
        result matches Err(error) ==> (reply matches Err(failure) && failure.0 == status_of(error)
            && failure.1@ == message_of(error)),
{
    match result {
        Ok(value) => Ok(Json(value)),
        Err(error) => {
            let status = error.status_code();
            let message = error.response();
            Err((status, message))
        },
    }
}

/// A 404 Not found status.
pub fn build_not_found_response() -> (status: u16)
    ensures
        status == 404,
{
    404
}

/// A 400 Bad request status.
pub fn build_bad_request_response() -> (status: u16)
    ensures
        status == 400,
{
    400
}

/// A 500 Internal server error status. The backend's message is for the
/// server's own diagnostics; it never reaches the client.
pub fn build_internal_server_error_response(_message: &str) -> (status: u16)
    ensures
        status == 500,
{
    500
}

/// The status for a reported database error: the client is answerable for
/// constraint violations, the server for everything else.
fn build_database_error_response(error_kind: &DatabaseErrorKind, info_message: &str) -> (status:
    u16)
    ensures
        status == database_error_status(*error_kind),
{
    match error_kind {
        DatabaseErrorKind::UniqueViolation => 409,
        DatabaseErrorKind::ForeignKeyViolation => build_bad_request_response(),
        DatabaseErrorKind::Other => build_internal_server_error_response(info_message),
    }
}

} // verus!
