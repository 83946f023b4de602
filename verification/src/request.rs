//! What the callers send in, already parsed, and the claims of a session.

use vstd::prelude::*;

verus! {

/// Body of a login.
#[derive(Debug, Clone, PartialEq, Eq)]
pub struct LoginRequest {
    pub username: String,
    pub password: String,
}

/// Body of the second step of a login with a second factor.
#[derive(Debug, Clone, PartialEq, Eq)]
pub struct Verify2FARequest {
    pub temp_token: String,
    pub code: String,
}

/// Body of a registration.
#[derive(Debug, Clone, PartialEq, Eq)]
pub struct RegisterRequest {
    pub username: String,
    pub email: String,
    pub password: String,
}

/// What a session token asserts: who, until when, and whether the second
/// factor was passed.
#[derive(Debug, Clone, PartialEq, Eq)]
pub struct Claims {
    pub sub: String,
    pub exp: usize,
    pub has_2fa: bool,
}

/// Body of a request to send the verification message again.
#[derive(Debug, Clone, PartialEq, Eq)]
pub struct ResendVerificationRequest {
    pub email: String,
}

/// Query of a click on a verification link.
#[derive(Debug, Clone, PartialEq, Eq)]
pub struct VerifyQuery {
    pub token: String,
}

/// Body of a request for a password reset.
#[derive(Debug, Clone, PartialEq, Eq)]
pub struct ForgotPasswordRequest {
    pub email: String,
}

/// Body of a password reset.
#[derive(Debug, Clone, PartialEq, Eq)]
pub struct ResetPasswordRequest {
    pub email: String,
    pub token: String,
    pub new_password: String,
}

/// Body of the confirmation that switches the second factor on or off.
#[derive(Debug, Clone, PartialEq, Eq)]
pub struct TwoFAVerificationRequest {
    pub username: String,
    pub code: String,
    pub token: String,
}

/// The least number of characters in a username.
pub const MIN_USERNAME_LENGTH: usize = 3;

/// The least number of characters in a password.
pub const MIN_PASSWORD_LENGTH: usize = 6;

/// What `validator::validate_email` answers for a text: whether it is an
/// email address as the HTML standard writes them.
pub uninterp spec fn well_formed_email(text: Seq<char>) -> bool;

/// Calls `validator::validate_email`, whose answer depends on the text
/// alone.
#[verifier::external_body]
fn email_is_well_formed(text: &str) -> (r: bool)
    ensures
        r == well_formed_email(text@),
{
    validator::validate_email(text)
}

/// A registration that may go ahead: a username of three characters or
/// more, a well-formed email address, a password of six characters or more.
pub open spec fn valid_registration(
    username: Seq<char>,
    email: Seq<char>,
    password: Seq<char>,
) -> bool {
    &&& username.len() >= MIN_USERNAME_LENGTH
    &&& well_formed_email(email)
    &&& password.len() >= MIN_PASSWORD_LENGTH
}

impl RegisterRequest {
    /// Whether the registration may go ahead.
    pub fn validate(&self) -> (valid: bool)
        ensures
            valid == valid_registration(self.username@, self.email@, self.password@),
    {
        self.username.as_str().unicode_len() >= MIN_USERNAME_LENGTH && email_is_well_formed(
            self.email.as_str(),
        ) && self.password.as_str().unicode_len() >= MIN_PASSWORD_LENGTH
    }
}

} // verus!
