//! Session tokens: signed, self-contained statements of who a user is and
//! until when. A token is valid exactly when its signature verifies under the
//! server's secret and its expiry lies in the future; nothing else is kept.
//!
//! Signing and signature checking are jsonwebtoken's (HS256). The expiry rule
//! is this module's own: the clock is an argument, and no leeway is granted.

use vstd::prelude::*;

verus! {

/// How long a token is good for after it is issued, in seconds: 24 hours.
pub const TOKEN_LIFETIME: usize = 86400;

/// What a token states: its subject (a username) and the instant, in seconds
/// since the Unix epoch, from which it is no longer accepted.
#[derive(Debug)]
pub struct Claims {
    pub sub: String,
    pub exp: usize,
}

/// The claims of a token as mathematical values.
#[verifier::ext_equal]
pub struct ClaimsView {
    pub sub: Seq<char>,
    pub exp: usize,
}

impl View for Claims {
    type V = ClaimsView;

    open spec fn view(&self) -> ClaimsView {
        ClaimsView { sub: self.sub@, exp: self.exp }
    }
}

/// Why a token was refused.
#[derive(Clone, Copy, Debug, PartialEq, Eq, Structural)]
pub enum TokenError {
    /// The text is not a token that carries a subject and an expiry.
    Malformed,
    /// The signature does not verify under the secret.
    BadSignature,
    /// The expiry instant has been reached.
    Expired,
}

/// No token could be signed.
#[derive(Clone, Copy, Debug, PartialEq, Eq, Structural)]
pub struct SigningError;

/// Why jsonwebtoken refused to decode a token.
#[derive(Clone, Copy, Debug, PartialEq, Eq, Structural)]
pub enum DecodeFailure {
    /// It reported `InvalidSignature`.
    SignatureMismatch,
    /// It reported anything else: the shape, the encoding, the header, a
    /// missing expiry claim.
    Unreadable,
}

/// jsonwebtoken's error, as it comes back from signing. Nothing is read from
/// it.
#[verifier::external_type_specification]
#[verifier::external_body]
pub struct ExJwtError(jsonwebtoken::errors::Error);

/// What decoding finds in a token: its claims, or why there are none.
pub enum Payload {
    /// The signature verified; `sub` is the subject claim where it is a
    /// string, `exp` the expiry claim where it is an unsigned integer.
    Claims { sub: Option<Seq<char>>, exp: Option<u64> },
    /// The signature did not verify.
    SignatureMismatch,
    /// The text could not be read as a signed token with an expiry claim.
    Unreadable,
}

/// The token that `jsonwebtoken::encode` makes, under the default HS256
/// header, of the claims `sub` and `exp` and a secret; `None` where it fails.
pub uninterp spec fn hs256_token(sub: Seq<char>, exp: u64, secret: Seq<char>) -> Option<Seq<char>>;

/// What `jsonwebtoken::decode` finds in a token under a secret when it checks
/// the HS256 signature but not the expiry.
pub uninterp spec fn hs256_payload(token: Seq<char>, secret: Seq<char>) -> Payload;

/// The outcome of a decoding call as a mathematical value.
pub open spec fn payload_of(outcome: Result<(Option<String>, Option<u64>), DecodeFailure>) -> Payload {
    match outcome {
        Ok((Some(sub), exp)) => Payload::Claims { sub: Some(sub@), exp },
        Ok((None, exp)) => Payload::Claims { sub: None, exp },
        Err(DecodeFailure::SignatureMismatch) => Payload::SignatureMismatch,
        Err(DecodeFailure::Unreadable) => Payload::Unreadable,
    }
}

/// The payload of a token that states exactly this subject and this expiry.
pub open spec fn stating(sub: Seq<char>, exp: u64) -> Payload {
    Payload::Claims { sub: Some(sub), exp: Some(exp) }
}

/// The characters a token is written in: the letters and digits of ASCII,
/// `-`, `_`, and the dot between its parts.
pub open spec fn is_token_char(c: char) -> bool {
    ||| 'A' <= c <= 'Z'
    ||| 'a' <= c <= 'z'
    ||| '0' <= c <= '9'
    ||| c == '-'
    ||| c == '_'
    ||| c == '.'
}

/// Every character of `text` is one a token is written in.
pub open spec fn is_token_text(text: Seq<char>) -> bool {
    forall|i: int| 0 <= i < text.len() ==> is_token_char(#[trigger] text[i])
}

/// Calls `jsonwebtoken::encode` with the default header on the claims object
/// `{"sub": sub, "exp": exp}`, keyed by the secret's bytes. Trusted: the result
/// is a function of the three arguments; a token that comes back is three
/// parts in unpadded URL-safe base64 joined by dots; and it decodes under the
/// same secret to the same two claims (the decoder recomputes the signature
/// over the same text and reads back the same JSON).
#[verifier::external_body]
fn encode_hs256(sub: &str, exp: u64, secret: &str) -> (r: Result<
    String,
    jsonwebtoken::errors::Error,
>)
    ensures
        r matches Ok(token) ==> hs256_token(sub@, exp, secret@) == Some(token@),
        r matches Ok(token) ==> is_token_text(token@),
        r matches Ok(token) ==> hs256_payload(token@, secret@) == stating(sub@, exp),
        r is Err ==> hs256_token(sub@, exp, secret@) is None,
{
    let mut claims = serde_json::Map::new();
    claims.insert("sub".to_owned(), serde_json::Value::from(sub));
    claims.insert("exp".to_owned(), serde_json::Value::from(exp));
    let key = jsonwebtoken::EncodingKey::from_secret(secret.as_bytes());
    jsonwebtoken::encode(&jsonwebtoken::Header::default(), &claims, &key)
}

/// Calls `jsonwebtoken::decode` with the default validation, expiry check
/// switched off, keyed by the secret's bytes, and picks the two claims out of
/// the decoded object; of its errors only `InvalidSignature` is told apart.
/// Trusted: the result is a function of the token and the secret alone, here
/// named `hs256_payload`.
#[verifier::external_body]
fn decode_hs256(token: &str, secret: &str) -> (r: Result<(Option<String>, Option<u64>), DecodeFailure>)
    ensures
        payload_of(r) == hs256_payload(token@, secret@),
{
    let mut validation = jsonwebtoken::Validation::default();
    validation.validate_exp = false;
    let key = jsonwebtoken::DecodingKey::from_secret(secret.as_bytes());
    match jsonwebtoken::decode::<serde_json::Value>(token, &key, &validation) {
        Ok(data) => Ok((
            match data.claims.get("sub") { Some(serde_json::Value::String(s)) => Some(s.clone()), _ => None },
            match data.claims.get("exp") { Some(serde_json::Value::Number(n)) => n.as_u64(), _ => None },
        )),
        Err(e) => match e.kind() {
            jsonwebtoken::errors::ErrorKind::InvalidSignature => Err(DecodeFailure::SignatureMismatch),
            _ => Err(DecodeFailure::Unreadable),
        },
    }
}

/// The verdict, at the instant `now`, on what decoding found in a token.
///
/// A token that cannot be read is `Malformed`, and so is one that lacks a
/// subject or an expiry that fits the machine's word. One whose signature does
/// not verify is `BadSignature`. One that states both claims is `Expired` from
/// its expiry instant on, and before that yields its claims unchanged.
pub open spec fn judged(payload: Payload, now: usize) -> Result<ClaimsView, TokenError> {
    match payload {
        Payload::SignatureMismatch => Err(TokenError::BadSignature),
        Payload::Unreadable => Err(TokenError::Malformed),
        Payload::Claims { sub: Some(sub), exp: Some(exp) } => if exp > usize::MAX {
            Err(TokenError::Malformed)
        } else if now >= exp {
            Err(TokenError::Expired)
        } else {
            Ok(ClaimsView { sub, exp: exp as usize })
        },
        Payload::Claims { .. } => Err(TokenError::Malformed),
    }
}

/// The verdict on a token at the instant `now` under a secret.
pub open spec fn validate_outcome(token: Seq<char>, secret: Seq<char>, now: usize) -> Result<
    ClaimsView,
    TokenError,
> {
    judged(hs256_payload(token, secret), now)
}

/// The outcome of a validation as mathematical values.
pub open spec fn verdict_view(verdict: Result<Claims, TokenError>) -> Result<ClaimsView, TokenError> {
    match verdict {
        Ok(claims) => Ok(claims@),
        Err(e) => Err(e),
    }
}

/// Judges, at the instant `now`, what decoding found in a token.
pub fn judge(decoded: Result<(Option<String>, Option<u64>), DecodeFailure>, now: usize) -> (r: Result<
    Claims,
    TokenError,
>)
    ensures
        verdict_view(r) == judged(payload_of(decoded), now),
{
    match decoded {
        Err(DecodeFailure::SignatureMismatch) => Err(TokenError::BadSignature),
        Err(DecodeFailure::Unreadable) => Err(TokenError::Malformed),
        Ok((Some(sub), Some(exp))) => {
            if exp > usize::MAX as u64 {
                Err(TokenError::Malformed)
            } else if now as u64 >= exp {
                Err(TokenError::Expired)
            } else {
                Ok(Claims { sub, exp: exp as usize })
            }
        },
        Ok(_) => Err(TokenError::Malformed),
    }
}

/// Issues a token for `username` at the instant `now`, signed with `secret`.
///
/// The token is what HS256 signing makes of the subject `username` and the
/// expiry `now + TOKEN_LIFETIME`. Under the same secret it validates to exactly
/// those claims at every instant before the expiry, and is `Expired` from then
/// on.
pub fn create_jwt(username: &str, secret: &str, now: usize) -> (r: Result<String, SigningError>)
    requires
        now + TOKEN_LIFETIME <= usize::MAX,
    ensures
        match r {
            Ok(token) => hs256_token(username@, (now + TOKEN_LIFETIME) as u64, secret@) == Some(
                token@,
            ),
            Err(_) => hs256_token(username@, (now + TOKEN_LIFETIME) as u64, secret@) is None,
        },
        r matches Ok(token) ==> is_token_text(token@),
        r matches Ok(token) ==> forall|at: usize| #[trigger]
            validate_outcome(token@, secret@, at) == if at < now + TOKEN_LIFETIME {
                Ok::<ClaimsView, TokenError>(
                    ClaimsView { sub: username@, exp: (now + TOKEN_LIFETIME) as usize },
                )
            } else {
                Err(TokenError::Expired)
            },
{
    let expiration_time: usize = now + TOKEN_LIFETIME;
    match encode_hs256(username, expiration_time as u64, secret) {
        Ok(token) => Ok(token),
        Err(_) => Err(SigningError),
    }
}

/// Validates a token at the instant `now` under `secret`.
pub fn validate_jwt(token: &str, secret: &str, now: usize) -> (r: Result<Claims, TokenError>)
    ensures
        verdict_view(r) == validate_outcome(token@, secret@, now),
{
    judge(decode_hs256(token, secret), now)
}

/// A token is accepted at an instant exactly when its signature verifies
/// under the secret, it carries a subject and an expiry, and the instant lies
/// before the expiry. It is refused as `BadSignature` exactly when the
/// signature does not verify, and as `Expired` exactly when it would be
/// accepted but for the instant.
pub proof fn valid_iff_signed_and_unexpired(token: Seq<char>, secret: Seq<char>, now: usize)
    ensures
        validate_outcome(token, secret, now) is Ok <==> (hs256_payload(token, secret) matches Payload::Claims {
            sub: Some(_),
            exp: Some(exp),
        } && now < exp <= usize::MAX),
        validate_outcome(token, secret, now) == Err::<ClaimsView, TokenError>(
            TokenError::BadSignature,
        ) <==> hs256_payload(token, secret) == Payload::SignatureMismatch,
        validate_outcome(token, secret, now) == Err::<ClaimsView, TokenError>(TokenError::Expired)
            <==> (hs256_payload(token, secret) matches Payload::Claims {
            sub: Some(_),
            exp: Some(exp),
        } && exp <= now && exp <= usize::MAX),
{
}

/// A token that is accepted at one instant is refused as `Expired` at every
/// instant from its expiry on, and accepted with the same claims at every
/// instant before it.
pub proof fn accepted_until_expiry(token: Seq<char>, secret: Seq<char>, now: usize, other: usize)
    ensures
        validate_outcome(token, secret, now) matches Ok(claims) ==> validate_outcome(
            token,
            secret,
            other,
        ) == if other < claims.exp {
            Ok::<ClaimsView, TokenError>(claims)
        } else {
            Err(TokenError::Expired)
        },
{
}

} // verus!
