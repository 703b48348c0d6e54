use catalog_backend::auth::{admin_check, auth_middleware, authenticate, guard, AuthFailure};
use catalog_backend::token::Claims;
use catalog_backend::token::{create_jwt, TokenError, TOKEN_LIFETIME};

const SECRET: &str = "a secret for the tests";
const NOW: usize = 1_700_000_000;

fn cookie_for(subject: &str) -> String {
    format!("theme=dark; token={}; lang=pt", create_jwt(subject, SECRET, NOW).unwrap())
}

#[test]
fn request_without_cookie_header_never_reaches_the_operation() {
    let mut calls = 0;
    let result = auth_middleware(None, SECRET, NOW, |subject: String| {
        calls += 1;
        subject
    });
    let error = result.unwrap_err();
    assert_eq!(calls, 0);
    assert_eq!(error.status_code.as_u16(), 401);
    assert_eq!(error.message, "Cookies missing");
}

#[test]
fn request_without_token_never_reaches_the_operation() {
    let mut calls = 0;
    let result = auth_middleware(Some("a=1"), SECRET, NOW, |_subject: String| {
        calls += 1;
    });
    let error = result.unwrap_err();
    assert_eq!(calls, 0);
    assert_eq!(error.status_code.as_u16(), 401);
    assert_eq!(error.message, "Token not found in cookies");
}

#[test]
fn request_with_a_refused_token_never_reaches_the_operation() {
    let cookie = cookie_for("alice");
    let mut calls = 0;
    let expired = auth_middleware(Some(&cookie), SECRET, NOW + TOKEN_LIFETIME, |_s: String| {
        calls += 1;
    })
    .unwrap_err();
    let forged = auth_middleware(Some(&cookie), "another secret", NOW, |_s: String| {
        calls += 1;
    })
    .unwrap_err();
    let garbled = auth_middleware(Some("token=garbage"), SECRET, NOW, |_s: String| {
        calls += 1;
    })
    .unwrap_err();
    assert_eq!(calls, 0);
    for error in [expired, forged, garbled] {
        assert_eq!(error.status_code.as_u16(), 401);
        assert_eq!(error.message, "Invalid or expired token");
    }
}

#[test]
fn admitted_request_runs_the_operation_once_with_the_subject() {
    let cookie = cookie_for("alice");
    let mut calls = 0;
    let result = auth_middleware(Some(&cookie), SECRET, NOW, |subject: String| {
        calls += 1;
        format!("hello {}", subject)
    });
    assert_eq!(result.unwrap(), "hello alice");
    assert_eq!(calls, 1);
}

#[test]
fn running_the_guard_twice_gives_the_same_answer() {
    let cookie = cookie_for("alice");
    let first = auth_middleware(Some(&cookie), SECRET, NOW, |subject: String| subject).unwrap();
    let second = auth_middleware(Some(&cookie), SECRET, NOW, |subject: String| subject).unwrap();
    assert_eq!(first, "alice");
    assert_eq!(second, "alice");
}

#[test]
fn authenticate_tells_the_causes_apart() {
    let cookie = cookie_for("alice");
    assert_eq!(authenticate(None, SECRET, NOW).unwrap_err(), AuthFailure::CookiesMissing);
    assert_eq!(authenticate(Some("a=1"), SECRET, NOW).unwrap_err(), AuthFailure::TokenNotFound);
    assert_eq!(
        authenticate(Some("token=garbage"), SECRET, NOW).unwrap_err(),
        AuthFailure::InvalidToken(TokenError::Malformed)
    );
    assert_eq!(
        authenticate(Some(&cookie), "another secret", NOW).unwrap_err(),
        AuthFailure::InvalidToken(TokenError::BadSignature)
    );
    assert_eq!(
        authenticate(Some(&cookie), SECRET, NOW + TOKEN_LIFETIME).unwrap_err(),
        AuthFailure::InvalidToken(TokenError::Expired)
    );
    let claims = authenticate(Some(&cookie), SECRET, NOW).unwrap();
    assert_eq!(claims.sub, "alice");
    assert_eq!(claims.exp, NOW + 86400);
}

#[test]
fn every_cause_leaves_as_a_401() {
    let failures = [
        (AuthFailure::CookiesMissing, "Cookies missing"),
        (AuthFailure::TokenNotFound, "Token not found in cookies"),
        (AuthFailure::InvalidToken(TokenError::Malformed), "Invalid or expired token"),
        (AuthFailure::InvalidToken(TokenError::BadSignature), "Invalid or expired token"),
        (AuthFailure::InvalidToken(TokenError::Expired), "Invalid or expired token"),
    ];
    for (failure, message) in failures {
        let error = failure.to_app_error();
        assert_eq!(error.status_code.as_u16(), 401);
        assert_eq!(error.message, message);
    }
}

#[test]
fn admin_check_without_cookie_header_is_a_client_error() {
    let error = admin_check(None, SECRET, NOW).unwrap_err();
    assert_eq!(error.status_code.as_u16(), 400);
    assert_eq!(error.message, "Cookies missing");
}

#[test]
fn admin_check_without_token_is_false() {
    assert_eq!(admin_check(Some("a=1"), SECRET, NOW).unwrap(), false);
    assert_eq!(admin_check(Some(""), SECRET, NOW).unwrap(), false);
}

#[test]
fn admin_check_with_a_refused_token_is_false() {
    let cookie = cookie_for("alice");
    assert_eq!(admin_check(Some("token=garbage"), SECRET, NOW).unwrap(), false);
    assert_eq!(admin_check(Some(&cookie), "another secret", NOW).unwrap(), false);
    assert_eq!(admin_check(Some(&cookie), SECRET, NOW + TOKEN_LIFETIME).unwrap(), false);
}

#[test]
fn admin_check_with_a_valid_token_is_true() {
    let cookie = cookie_for("alice");
    assert_eq!(admin_check(Some(&cookie), SECRET, NOW).unwrap(), true);
    assert_eq!(admin_check(Some(&cookie), SECRET, NOW + TOKEN_LIFETIME - 1).unwrap(), true);
}

#[test]
fn guard_runs_the_operation_for_a_verified_subject_only() {
    let mut calls = 0;
    let claims = Claims { sub: String::from("alice"), exp: NOW + 1 };
    let admitted = guard(Ok(claims), |subject: String| {
        calls += 1;
        subject.len()
    });
    assert_eq!(admitted.unwrap(), 5);
    assert_eq!(calls, 1);
    for failure in [
        AuthFailure::CookiesMissing,
        AuthFailure::TokenNotFound,
        AuthFailure::InvalidToken(TokenError::Expired),
    ] {
        let refused = guard(Err(failure), |subject: String| {
            calls += 1;
            subject.len()
        })
        .unwrap_err();
        assert_eq!(refused.status_code.as_u16(), 401);
        assert_eq!(refused.message, failure.to_app_error().message);
    }
    assert_eq!(calls, 1);
}
