//! The error taxonomy of the service and the error envelope sent to clients.

use vstd::prelude::*;
use vstd::string::*;
use vstd::std_specs::convert::FromSpecImpl;
use crate::text::join;

verus! {

/// A failure of the storage layer, with the text of its cause.
#[derive(Debug)]
pub enum DbError {
    /// The storage engine refused or failed an operation.
    Sqlite(String),
    /// The filesystem refused or failed an operation.
    Io(String),
    /// The schema source is missing at the given path.
    SchemaNotFound(String),
    /// The worker that ran the storage call did not complete.
    Join(String),
}

impl DbError {
    /// What the error says when displayed.
    pub open spec fn text(&self) -> Seq<char> {
        match self {
            DbError::Sqlite(detail) => "Chyba SQLite: "@ + detail@,
            DbError::Io(detail) => "Filesystem error: "@ + detail@,
            DbError::SchemaNotFound(path) => "Schema file not found: "@ + path@,
            DbError::Join(detail) => "Error while waiting for blocking task: "@ + detail@,
        }
    }

    /// The text of the error.
    pub fn message(&self) -> (s: String)
        ensures
            s@ == self.text(),
    {
        match self {
            DbError::Sqlite(detail) => join("Chyba SQLite: ", detail.as_str()),
            DbError::Io(detail) => join("Filesystem error: ", detail.as_str()),
            DbError::SchemaNotFound(path) => join("Schema file not found: ", path.as_str()),
            DbError::Join(detail) => join(
                "Error while waiting for blocking task: ",
                detail.as_str(),
            ),
        }
    }
}

/// Why a request failed.
#[derive(Debug)]
pub enum ServiceError {
    /// The caller can correct the request.
    InvalidInput(String),
    /// The addressed game does not exist.
    NotFound(String),
    /// Reserved; no operation of the engine reports it.
    Conflict(String),
    /// The storage layer failed.
    Database(DbError),
    /// The engine found its own storage inconsistent.
    Internal(String),
}

pub type ServiceResult<T> = Result<T, ServiceError>;

impl ServiceError {
    /// The HTTP status code that reports this error.
    pub open spec fn status(&self) -> u16 {
        match self {
            ServiceError::InvalidInput(_) => 400,
            ServiceError::NotFound(_) => 404,
            ServiceError::Conflict(_) => 409,
            ServiceError::Database(_) => 500,
            ServiceError::Internal(_) => 500,
        }
    }

    /// What the error says when displayed.
    pub open spec fn text(&self) -> Seq<char> {
        match self {
            ServiceError::InvalidInput(message) => message@,
            ServiceError::NotFound(message) => message@,
            ServiceError::Conflict(message) => message@,
            ServiceError::Database(error) => "Database error: "@ + error.text(),
            ServiceError::Internal(message) => message@,
        }
    }

    /// The HTTP status code that reports this error: 400 for invalid input,
    /// 404 for a missing game, 409 for a conflict, 500 for a failure of the
    /// store or of the engine.
    pub fn status_code(&self) -> (code: u16)
        ensures
            code == self.status(),
    {
        match self {
            ServiceError::InvalidInput(_) => 400,
            ServiceError::NotFound(_) => 404,
            ServiceError::Conflict(_) => 409,
            ServiceError::Database(_) => 500,
            ServiceError::Internal(_) => 500,
        }
    }

    /// The text of the error.
    pub fn message(&self) -> (s: String)
        ensures
            s@ == self.text(),
    {
        match self {
            ServiceError::InvalidInput(message) => message.clone(),
            ServiceError::NotFound(message) => message.clone(),
            ServiceError::Conflict(message) => message.clone(),
            ServiceError::Database(error) => {
                let detail = error.message();
                join("Database error: ", detail.as_str())
            },
            ServiceError::Internal(message) => message.clone(),
        }
    }

    /// The status code and the body that report this error to a client.
    pub fn into_response_parts(self) -> (r: (u16, ApiErrorResponse))
        ensures
            r.0 == self.status(),
            r.1.success == false,
            r.1.error.status_code == self.status(),
            r.1.error.message@ == self.text(),
    {
        let status = self.status_code();
        let message = self.message();
        (status, ApiErrorResponse::new(message, status))
    }
}

impl From<DbError> for ServiceError {
    fn from(error: DbError) -> (r: ServiceError) {
        ServiceError::Database(error)
    }
}

impl FromSpecImpl<DbError> for ServiceError {
    open spec fn obeys_from_spec() -> bool {
        true
    }

    open spec fn from_spec(error: DbError) -> ServiceError {
        ServiceError::Database(error)
    }
}

/// The body of every response that reports a failure.
#[derive(Debug)]
pub struct ApiErrorResponse {
    pub success: bool,
    pub error: ApiErrorDetails,
}

impl ApiErrorResponse {
    /// The body that reports a failure with the given message and status
    /// code.
    pub fn new(message: String, status_code: u16) -> (r: ApiErrorResponse)
        ensures
            r.success == false,
            r.error.message == message,
            r.error.status_code == status_code,
    {
        ApiErrorResponse { success: false, error: ApiErrorDetails { message, status_code } }
    }
}

#[derive(Debug)]
pub struct ApiErrorDetails {
    pub message: String,
    pub status_code: u16,
}

} // verus!
