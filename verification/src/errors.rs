//! Errors as they leave the request boundary: a message and a status code.

use vstd::prelude::*;
use vstd::string::*;

verus! {

/// An HTTP status code. Every value of the type lies between 100 and 999.
#[derive(Clone, Copy, Debug, PartialEq, Eq, Structural)]
pub struct StatusCode {
    code: u16,
}

impl StatusCode {
    #[verifier::type_invariant]
    spec fn in_range(self) -> bool {
        100 <= self.code <= 999
    }

    /// The number this code stands for.
    pub closed spec fn value(self) -> int {
        self.code as int
    }

    /// The code for `code`, where it is a status code at all.
    pub fn from_u16(code: u16) -> (r: Option<StatusCode>)
        ensures
            r is Some <==> 100 <= code <= 999,
            r matches Some(s) ==> s.value() == code,
    {
        if 100 <= code && code <= 999 {
            Some(StatusCode { code })
        } else {
            None
        }
    }

    /// The number this code stands for, ready for the transport layer.
    pub fn as_u16(&self) -> (r: u16)
        ensures
            r == self.value(),
            100 <= r <= 999,
    {
        proof {
            use_type_invariant(self);
        }
        self.code
    }

    /// 400 Bad Request.
    pub fn bad_request() -> (r: StatusCode)
        ensures
            r.value() == 400,
    {
        StatusCode { code: 400 }
    }

    /// 401 Unauthorized.
    pub fn unauthorized() -> (r: StatusCode)
        ensures
            r.value() == 401,
    {
        StatusCode { code: 401 }
    }

    /// 404 Not Found.
    pub fn not_found() -> (r: StatusCode)
        ensures
            r.value() == 404,
    {
        StatusCode { code: 404 }
    }

    /// 409 Conflict.
    pub fn conflict() -> (r: StatusCode)
        ensures
            r.value() == 409,
    {
        StatusCode { code: 409 }
    }

    /// 423 Locked.
    pub fn locked() -> (r: StatusCode)
        ensures
            r.value() == 423,
    {
        StatusCode { code: 423 }
    }

    /// 500 Internal Server Error.
    pub fn internal_server_error() -> (r: StatusCode)
        ensures
            r.value() == 500,
    {
        StatusCode { code: 500 }
    }
}

/// Two codes with the same number are the same code.
pub proof fn status_code_determined_by_value(a: StatusCode, b: StatusCode)
    requires
        a.value() == b.value(),
    ensures
        a == b,
{
}

/// The body of an error response: the fixed status word and the message.
#[derive(Debug)]
pub struct ErrorResponse {
    pub status: String,
    pub message: String,
}

/// A failed request: what to tell the client and under which status code.
#[derive(Debug)]
pub struct AppError {
    pub message: String,
    pub status_code: StatusCode,
}

/// An error as mathematical values: its message and its status number.
#[verifier::ext_equal]
pub struct AppErrorView {
    pub message: Seq<char>,
    pub status: int,
}

impl View for AppError {
    type V = AppErrorView;

    open spec fn view(&self) -> AppErrorView {
        AppErrorView { message: self.message@, status: self.status_code.value() }
    }
}

/// The error with this message and this status number.
pub open spec fn failure(message: Seq<char>, status: int) -> AppErrorView {
    AppErrorView { message, status }
}

/// The outcome of a request as mathematical values.
pub open spec fn outcome_view<T: View>(outcome: Result<T, AppError>) -> Result<T::V, AppErrorView> {
    match outcome {
        Ok(reply) => Ok(reply@),
        Err(error) => Err(error@),
    }
}

/// What the record store reports when a query fails, as far as the handlers
/// tell failures apart.
#[derive(Debug)]
pub enum StoreError {
    /// The query matched no row.
    RowNotFound,
    /// The database rejected the query; the text is its own description.
    Database(String),
    /// Any other failure: the connection, the pool, the decoding of a row.
    Other,
}

/// How a store failure is reported where no handler gives it words of its
/// own.
pub open spec fn store_failure(error: StoreError) -> AppErrorView {
    match error {
        StoreError::RowNotFound => failure("User not found"@, 404),
        StoreError::Database(text) => failure(" Database error "@ + text@, 500),
        StoreError::Other => failure("Sqlx not mapped internal error"@, 500),
    }
}

impl AppError {
    pub fn new(message: &str, status_code: StatusCode) -> (e: AppError)
        ensures
            e@ == failure(message@, status_code.value()),
            e.status_code == status_code,
    {
        AppError { message: String::from_str(message), status_code }
    }

    /// Reports a store failure that no handler has mapped itself.
    pub fn from(error: StoreError) -> (e: AppError)
        ensures
            e@ == store_failure(error),
    {
        match error {
            StoreError::RowNotFound => AppError::new("User not found", StatusCode::not_found()),
            StoreError::Database(text) => {
                let mut message = String::from_str(" Database error ");
                message.append(text.as_str());
                AppError { message, status_code: StatusCode::internal_server_error() }
            },
            StoreError::Other => AppError::new(
                "Sqlx not mapped internal error",
                StatusCode::internal_server_error(),
            ),
        }
    }

    /// The response body for this error.
    pub fn body(&self) -> (r: ErrorResponse)
        ensures
            r.status@ == "error"@,
            r.message@ == self.message@,
    {
        ErrorResponse { status: String::from_str("error"), message: self.message.clone() }
    }
}

} // verus!
