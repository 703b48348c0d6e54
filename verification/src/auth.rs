//! The guard in front of protected operations.
//!
//! A request is admitted when its cookie header carries a session token that
//! validates; the verified subject is then handed to the operation behind the
//! guard. Every refusal looks the same from outside, a 401 with no detail of
//! what went wrong with the token, while the specific cause stays available
//! inside as an `AuthFailure`.

use vstd::prelude::*;

use crate::cookie::{extract_token, session_token, text_of};
use crate::errors::{failure, AppError, StatusCode};
use crate::token::{validate_jwt, validate_outcome, Claims, ClaimsView, TokenError};

verus! {

/// Why a request was not admitted.
#[derive(Clone, Copy, Debug, PartialEq, Eq, Structural)]
pub enum AuthFailure {
    /// The request has no cookie header.
    CookiesMissing,
    /// The cookie header carries no session token.
    TokenNotFound,
    /// The session token was refused, for the reason given.
    InvalidToken(TokenError),
}

impl AuthFailure {
    /// What the client is told. The reason a token was refused is not part of
    /// it.
    pub open spec fn message(self) -> Seq<char> {
        match self {
            AuthFailure::CookiesMissing => "Cookies missing"@,
            AuthFailure::TokenNotFound => "Token not found in cookies"@,
            AuthFailure::InvalidToken(_) => "Invalid or expired token"@,
        }
    }

    /// The error that leaves the request boundary: always a 401.
    pub fn to_app_error(&self) -> (e: AppError)
        ensures
            e@ == failure(self.message(), 401),
    {
        match self {
            AuthFailure::CookiesMissing => AppError::new(
                "Cookies missing",
                StatusCode::unauthorized(),
            ),
            AuthFailure::TokenNotFound => AppError::new(
                "Token not found in cookies",
                StatusCode::unauthorized(),
            ),
            AuthFailure::InvalidToken(_) => AppError::new(
                "Invalid or expired token",
                StatusCode::unauthorized(),
            ),
        }
    }
}

/// Whom a request with this cookie header speaks for at the instant `now`,
/// or why it speaks for nobody.
pub open spec fn authenticate_outcome(cookies: Option<Seq<char>>, secret: Seq<char>, now: usize) -> Result<
    ClaimsView,
    AuthFailure,
> {
    match cookies {
        None => Err(AuthFailure::CookiesMissing),
        Some(header) => match session_token(header) {
            None => Err(AuthFailure::TokenNotFound),
            Some(token) => match validate_outcome(token, secret, now) {
                Ok(claims) => Ok(claims),
                Err(e) => Err(AuthFailure::InvalidToken(e)),
            },
        },
    }
}

/// The outcome of an authentication as mathematical values.
pub open spec fn authentication_view(outcome: Result<Claims, AuthFailure>) -> Result<
    ClaimsView,
    AuthFailure,
> {
    match outcome {
        Ok(claims) => Ok(claims@),
        Err(e) => Err(e),
    }
}

/// Finds the session token in the cookie header, if there is one, and
/// validates it.
pub fn authenticate(cookies: Option<&str>, secret: &str, now: usize) -> (r: Result<
    Claims,
    AuthFailure,
>)
    ensures
        authentication_view(r) == authenticate_outcome(text_of(cookies), secret@, now),
{
    let header = match cookies {
        Some(header) => header,
        None => {
            return Err(AuthFailure::CookiesMissing);
        },
    };
    let token = match extract_token(header) {
        Some(token) => token,
        None => {
            return Err(AuthFailure::TokenNotFound);
        },
    };
    match validate_jwt(token, secret, now) {
        Ok(claims) => Ok(claims),
        Err(e) => Err(AuthFailure::InvalidToken(e)),
    }
}

/// `output` is what `next` may return when it is handed the subject
/// `subject`.
pub open spec fn returned_for<T, F: FnOnce(String) -> T>(
    next: F,
    subject: Seq<char>,
    output: T,
) -> bool {
    exists|name: String| name@ == subject && #[trigger] next.ensures((name,), output)
}

/// Acts on the outcome of an authentication: runs `next` on behalf of the
/// subject it names, or turns the failure into the 401 that the client sees.
///
/// `next` is called once, with the verified subject, when the outcome is a
/// success; what it returns is handed back. Otherwise it is not called at all.
pub fn guard<T, F: FnOnce(String) -> T>(outcome: Result<Claims, AuthFailure>, next: F) -> (r: Result<
    T,
    AppError,
>)
    requires
        forall|subject: String| #[trigger] next.requires((subject,)),
    ensures
        match outcome {
            Ok(claims) => r matches Ok(output) && returned_for(next, claims.sub@, output),
            Err(e) => r matches Err(error) && error@ == failure(e.message(), 401),
        },
{
    match outcome {
        Ok(claims) => {
            let ghost subject = claims.sub;
            let output = next(claims.sub);
            assert(next.ensures((subject,), output));
            Ok(output)
        },
        Err(e) => Err(e.to_app_error()),
    }
}

/// Runs `next` on behalf of the subject that the request's session token
/// names, or refuses the request with a 401.
pub fn auth_middleware<T, F: FnOnce(String) -> T>(
    cookies: Option<&str>,
    secret: &str,
    now: usize,
    next: F,
) -> (r: Result<T, AppError>)
    requires
        forall|subject: String| #[trigger] next.requires((subject,)),
    ensures
        match authenticate_outcome(text_of(cookies), secret@, now) {
            Ok(claims) => r matches Ok(output) && returned_for(next, claims.sub, output),
            Err(e) => r matches Err(error) && error@ == failure(e.message(), 401),
        },
{
    guard(authenticate(cookies, secret, now), next)
}

/// Reports whether the request carries a session token that is valid right
/// now. A header without a valid token gives `false`; only a request without
/// any cookie header is an error, a 400.
pub fn admin_check(cookies: Option<&str>, secret: &str, now: usize) -> (r: Result<bool, AppError>)
    ensures
        match text_of(cookies) {
            Some(header) => r matches Ok(valid) && valid == (authenticate_outcome(
                Some(header),
                secret@,
                now,
            ) is Ok),
            None => r matches Err(error) && error@ == failure("Cookies missing"@, 400),
        },
{
    match cookies {
        None => Err(AppError::new("Cookies missing", StatusCode::bad_request())),
        Some(_) => Ok(authenticate(cookies, secret, now).is_ok()),
    }
}

} // verus!
