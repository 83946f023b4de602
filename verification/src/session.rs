//! Session tokens: issued for one day, signed with the service's key, and
//! read back from an `Authorization` header.

use vstd::prelude::*;
use crate::clock::{deadline, expiry_after, ONE_DAY};
use crate::error::{ErrorView, ServiceError};
use crate::request::Claims;

verus! {

/// The type of failure that the token crate reports.
#[verifier::external_type_specification]
#[verifier::external_body]
pub struct ExTokenError(jsonwebtoken::errors::Error);

/// The claims of a token as they were read, each absent where the token
/// does not hold it in the expected type.
#[derive(Debug, Clone, PartialEq, Eq)]
pub struct RawClaims {
    pub sub: Option<String>,
    pub exp: Option<u64>,
    pub has_2fa: Option<bool>,
}

/// `Claims` over mathematical values.
pub struct ClaimsView {
    pub sub: Seq<char>,
    pub exp: nat,
    pub has_2fa: bool,
}

impl View for Claims {
    type V = ClaimsView;

    open spec fn view(&self) -> ClaimsView {
        ClaimsView { sub: self.sub@, exp: self.exp as nat, has_2fa: self.has_2fa }
    }
}

/// The token that `jsonwebtoken::encode` writes for these claims under this
/// key, or `None` where it reports a failure.
pub uninterp spec fn signed_token(
    secret: Seq<char>,
    sub: Seq<char>,
    exp: nat,
    has_2fa: bool,
) -> Option<Seq<char>>;

/// Calls `jsonwebtoken::encode` with the default header (HS256), the claims
/// `sub`, `exp` and `has_2fa` as a JSON object, and the secret's bytes as
/// the key. The token depends on these values alone: the header and the
/// claims are serialised, encoded and signed, and nothing else enters.
#[verifier::external_body]
fn encode_claims(
    secret: &str,
    sub: &str,
    exp: usize,
    has_2fa: bool,
) -> (r: Result<String, jsonwebtoken::errors::Error>)
    ensures
        (match r {
            Ok(token) => signed_token(secret@, sub@, exp as nat, has_2fa) == Some(token@),
            Err(_) => signed_token(secret@, sub@, exp as nat, has_2fa) is None,
        }),
{
    let mut claims = serde_json::Map::new();
    claims.insert("sub".to_string(), serde_json::Value::from(sub));
    claims.insert("exp".to_string(), serde_json::Value::from(exp));
    claims.insert("has_2fa".to_string(), serde_json::Value::from(has_2fa));
    let key = jsonwebtoken::EncodingKey::from_secret(secret.as_bytes());
    jsonwebtoken::encode(&jsonwebtoken::Header::default(), &claims, &key)
}

/// Calls `jsonwebtoken::decode` with the default validation (HS256, `exp`
/// required and checked against the system clock) and hands out the three
/// claims that the service uses. Nothing is claimed of the outcome: it
/// depends on the clock as well as on the token and the key. The crate
/// reads the clock as seconds since the epoch and expects it to be past
/// the first minute.
#[verifier::external_body]
fn decode_claims(secret: &str, token: &str) -> (r: Result<RawClaims, jsonwebtoken::errors::Error>) {
    let key = jsonwebtoken::DecodingKey::from_secret(secret.as_bytes());
    let validation = jsonwebtoken::Validation::default();
    let data = jsonwebtoken::decode::<serde_json::Value>(token, &key, &validation)?;
    Ok(
        RawClaims {
            sub: data.claims.get("sub").and_then(|v| v.as_str()).map(|s| s.to_string()),
            exp: data.claims.get("exp").and_then(|v| v.as_u64()),
            has_2fa: data.claims.get("has_2fa").and_then(|v| v.as_bool()),
        },
    )
}

/// The failure that any problem with a presented session token ends in.
pub open spec fn invalid_token() -> ErrorView {
    ErrorView::Unauthorized("Invalid token"@)
}

/// When a session issued at `now` ends: one day later, where that moment is
/// not before the epoch and fits the claim.
pub open spec fn session_expiry(now: int) -> Option<nat> {
    match deadline(now, ONE_DAY as int) {
        Some(t) => if 0 <= t <= usize::MAX {
            Some(t as nat)
        } else {
            None
        },
        None => None,
    }
}

/// What issuing a session at `now` gives: the signed token for `sub`, the
/// expiry one day on and the flag; an internal error where the expiry
/// cannot be written down or the signing fails.
pub open spec fn session_outcome(
    secret: Seq<char>,
    sub: Seq<char>,
    has_2fa: bool,
    now: int,
) -> Result<Seq<char>, ErrorView> {
    match session_expiry(now) {
        None => Err(ErrorView::InternalServerError),
        Some(exp) => match signed_token(secret, sub, exp, has_2fa) {
            Some(token) => Ok(token),
            None => Err(ErrorView::InternalServerError),
        },
    }
}

/// What reading a token's claims gives: the claims where all three are
/// there and the expiry fits; else the token is invalid.
pub open spec fn accepted_claims(raw: Option<RawClaims>) -> Result<ClaimsView, ErrorView> {
    match raw {
        Some(RawClaims { sub: Some(sub), exp: Some(exp), has_2fa: Some(has_2fa) }) => if exp
            <= usize::MAX {
            Ok(ClaimsView { sub: sub@, exp: exp as nat, has_2fa })
        } else {
            Err(invalid_token())
        },
        _ => Err(invalid_token()),
    }
}

/// What a `Result<Claims, ServiceError>` says, over views.
pub open spec fn claims_outcome(r: Result<Claims, ServiceError>) -> Result<ClaimsView, ErrorView> {
    match r {
        Ok(c) => Ok(c@),
        Err(e) => Err(e@),
    }
}

/// Signs the claims with the key. A failure of the signing is an internal
/// error.
pub fn issue(secret: &str, claims: &Claims) -> (r: Result<String, ServiceError>)
    ensures
        (match signed_token(secret@, claims@.sub, claims@.exp, claims@.has_2fa) {
            Some(token) => r matches Ok(t) && t@ == token,
            None => r matches Err(e) && e@ == ErrorView::InternalServerError,
        }),
{
    match encode_claims(secret, claims.sub.as_str(), claims.exp, claims.has_2fa) {
        Ok(token) => Ok(token),
        Err(_) => Err(ServiceError::InternalServerError),
    }
}

/// Issues the session of `sub` at `now`: it ends one day later.
pub fn issue_session(
    secret: &str,
    sub: &str,
    has_2fa: bool,
    now: i64,
) -> (r: Result<String, ServiceError>)
    ensures
        crate::error::text_outcome(r) == session_outcome(secret@, sub@, has_2fa, now as int),
{
    match expiry_after(now, ONE_DAY) {
        None => Err(ServiceError::InternalServerError),
        Some(t) => {
            if t < 0 || t as u64 > usize::MAX as u64 {
                Err(ServiceError::InternalServerError)
            } else {
                let claims = Claims { sub: sub.to_owned(), exp: t as usize, has_2fa };
                issue(secret, &claims)
            }
        },
    }
}

/// Turns what was read from a token into claims, or turns the token down.
pub fn accept_claims(raw: Option<RawClaims>) -> (r: Result<Claims, ServiceError>)
    ensures
        claims_outcome(r) == accepted_claims(raw),
{
    match raw {
        Some(RawClaims { sub: Some(sub), exp: Some(exp), has_2fa: Some(has_2fa) }) => {
            if exp <= usize::MAX as u64 {
                Ok(Claims { sub, exp: exp as usize, has_2fa })
            } else {
                Err(ServiceError::unauthorized("Invalid token"))
            }
        },
        _ => Err(ServiceError::unauthorized("Invalid token")),
    }
}

/// Reads a session token: checks its signature and its expiry and gives its
/// claims. Whether a token passes depends on the clock at the time of the
/// call; a token that does not pass is invalid, whatever the reason.
pub fn parse(secret: &str, token: &str) -> (r: Result<Claims, ServiceError>)
    ensures
        r matches Err(e) ==> e@ == invalid_token(),
{
    match decode_claims(secret, token) {
        Ok(raw) => accept_claims(Some(raw)),
        Err(_) => accept_claims(None),
    }
}

} // verus!
