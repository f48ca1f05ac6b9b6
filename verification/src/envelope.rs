//! The uniform response envelope and the error taxonomy of the service.
//!
//! Every request handler answers with an `ApiResponse`: code 200 with the
//! payload on success, or the code and message of a `ServerError` with no
//! payload. The error taxonomy is fixed: bad input (400), absent entity
//! (404), store failure (500), lifecycle failure (500).
use vstd::prelude::*;

verus! {

/// The `{code, msg, data}` wrapper every handler returns.
pub struct ApiResponse<T> {
    pub code: i32,
    pub msg: String,
    pub data: Option<T>,
}

impl<T> ApiResponse<T> {
    /// A success envelope: code 200, message "success", payload present.
    pub fn success(data: T) -> (r: Self)
        ensures
            r.code == 200,
            r.msg@ == "success"@,
            r.data == Some(data),
    {
        Self { code: 200, msg: String::from_str("success"), data: Some(data) }
    }

    /// An error envelope: the given code and message, no payload.
    pub fn error(code: i32, msg: &str) -> (r: Self)
        ensures
            r.code == code,
            r.msg@ == msg@,
            r.data is None,
    {
        Self { code, msg: msg.to_owned(), data: None }
    }
}

/// Everything that can go wrong while serving: a lifecycle failure, a
/// store failure, invalid caller input, or an absent entity. Each variant
/// carries its human-readable message.
#[derive(Debug)]
pub enum ServerError {
    StartupError(String),
    DatabaseError(String),
    BadRequest(String),
    NotFound(String),
}

impl ServerError {
    /// The HTTP status each error maps to.
    pub open spec fn spec_status_code(&self) -> i32 {
        match self {
            ServerError::NotFound(_) => 404,
            ServerError::DatabaseError(_) => 500,
            ServerError::StartupError(_) => 500,
            ServerError::BadRequest(_) => 400,
        }
    }

    /// The message the error carries.
    pub open spec fn spec_message(&self) -> Seq<char> {
        match self {
            ServerError::NotFound(msg) => msg@,
            ServerError::DatabaseError(msg) => msg@,
            ServerError::StartupError(msg) => msg@,
            ServerError::BadRequest(msg) => msg@,
        }
    }

    /// The fixed numeric status of this error: 404 for an absent entity,
    /// 400 for invalid input, 500 otherwise.
    pub fn status_code(&self) -> (r: i32)
        ensures
            r == self.spec_status_code(),
    {
        match self {
            ServerError::NotFound(_) => 404,
            ServerError::DatabaseError(_) => 500,
            ServerError::StartupError(_) => 500,
            ServerError::BadRequest(_) => 400,
        }
    }

    /// The error's message, for callers that surface it.
    pub fn message(&self) -> (r: String)
        ensures
            r@ == self.spec_message(),
    {
        match self {
            ServerError::NotFound(msg) => msg.clone(),
            ServerError::DatabaseError(msg) => msg.clone(),
            ServerError::StartupError(msg) => msg.clone(),
            ServerError::BadRequest(msg) => msg.clone(),
        }
    }

    /// The envelope an error leaves the handler as: its status code and
    /// message, and no payload.
    pub fn into_envelope(self) -> (r: ApiResponse<()>)
        ensures
            r.code == self.spec_status_code(),
            r.msg@ == self.spec_message(),
            r.data is None,
    {
        let code = self.status_code();
        let msg = self.message();
        ApiResponse { code, msg, data: None }
    }
}

} // verus!
