//! The second factor at login: a code sent by email, answered together
//! with the handle of the challenge.

use vstd::prelude::*;
use crate::clock::{
    deadline, expired, expiry_after, is_expired, is_reading, unix_now, LOGIN_CODE_LIFETIME,
    TEMP_TOKEN_LIFETIME,
};
use crate::config::Config;
use crate::error::{text_outcome, ErrorView, ServiceError};
use crate::mail::{code_mail, CodePurpose, Mail, MailView};
use crate::request::Verify2FARequest;
use crate::secret::{generate_2fa_code, generate_temp_token, is_handle, is_secret, CODE_LENGTH};
use crate::session::{issue_session, session_outcome};
use crate::store::{lookup, unique_identities, CredentialStore, KeyKind, UserView};

verus! {

/// A challenge that was decided on and is not yet stored: the message with
/// the code goes out first. The code stays with the service; only the
/// handle is for the caller of the flow.
#[derive(Debug, Clone, PartialEq, Eq)]
pub struct Challenge {
    pub username: String,
    pub code: String,
    pub temp_token: String,
    pub mail: Mail,
}

/// A `Challenge` over sequences of characters.
pub struct ChallengeView {
    pub username: Seq<char>,
    pub code: Seq<char>,
    pub temp_token: Seq<char>,
    pub mail: MailView,
}

impl View for Challenge {
    type V = ChallengeView;

    open spec fn view(&self) -> ChallengeView {
        ChallengeView {
            username: self.username@,
            code: self.code@,
            temp_token: self.temp_token@,
            mail: self.mail@,
        }
    }
}

impl Challenge {
    /// The challenge for an account, from secrets already drawn: writes
    /// the message that carries the code to the account's address.
    pub fn new(
        purpose: CodePurpose,
        username: String,
        email: &str,
        code: String,
        temp_token: String,
    ) -> (challenge: Challenge)
        ensures
            challenge@ == challenge_for(purpose, username@, email@, code@, temp_token@),
    {
        let mail = Mail::code(purpose, email, code.as_str());
        Challenge { username, code, temp_token, mail }
    }
}

/// What a `Result<Challenge, ServiceError>` says, over views.
pub open spec fn challenge_outcome(
    r: Result<Challenge, ServiceError>,
) -> Result<ChallengeView, ErrorView> {
    match r {
        Ok(c) => Ok(c@),
        Err(e) => Err(e@),
    }
}

/// The failure of a challenge for a name that no account has.
pub open spec fn user_not_found() -> ErrorView {
    ErrorView::BadRequest("User not found"@)
}

/// The failure of an answer whose handle no account holds.
pub open spec fn invalid_temp_token() -> ErrorView {
    ErrorView::BadRequest("Invalid temporary token."@)
}

/// The failure of an answer with the wrong code.
pub open spec fn invalid_code() -> ErrorView {
    ErrorView::BadRequest("Invalid 2FA code."@)
}

/// The failure of an answer that comes after the code has died.
pub open spec fn code_expired() -> ErrorView {
    ErrorView::BadRequest("2FA code has expired."@)
}

/// The challenge for an account: its name, the secrets, and the message
/// that carries the code to its address.
pub open spec fn challenge_for(
    purpose: CodePurpose,
    username: Seq<char>,
    email: Seq<char>,
    code: Seq<char>,
    temp_token: Seq<char>,
) -> ChallengeView {
    ChallengeView { username, code, temp_token, mail: code_mail(purpose, email, code) }
}

/// The login challenge for `username` with the given secrets, or the
/// failure where no account has that name.
pub open spec fn login_challenge(
    s: Seq<UserView>,
    username: Seq<char>,
    code: Seq<char>,
    temp_token: Seq<char>,
) -> Result<ChallengeView, ErrorView> {
    match lookup(s, KeyKind::Username, username) {
        Some(i) => Ok(challenge_for(CodePurpose::Login, username, s[i].email, code, temp_token)),
        None => Err(user_not_found()),
    }
}

/// What storing a login challenge does. Without delivery nothing is
/// stored and the flow fails; the same where an expiry cannot be written
/// down. Else the account, if it is still there, gets the code for three
/// minutes and the handle for ten, and the caller gets the handle.
pub open spec fn login_challenge_step(
    s: Seq<UserView>,
    username: Seq<char>,
    code: Seq<char>,
    temp_token: Seq<char>,
    delivered: bool,
    now: int,
) -> (Seq<UserView>, Result<Seq<char>, ErrorView>) {
    match (deadline(now, LOGIN_CODE_LIFETIME as int), deadline(now, TEMP_TOKEN_LIFETIME as int)) {
        (Some(code_expiry), Some(temp_token_expiry)) if delivered => match lookup(
            s,
            KeyKind::Username,
            username,
        ) {
            Some(i) => (
                s.update(
                    i,
                    s[i].with_login_challenge(code, code_expiry, temp_token, temp_token_expiry),
                ),
                Ok(temp_token),
            ),
            None => (s, Ok(temp_token)),
        },
        _ => (s, Err(ErrorView::InternalServerError)),
    }
}

/// How an answer to a login challenge fares against an account: the code
/// and its expiry must be there, the code must be the one sent, and the
/// clock must not have passed the expiry.
pub open spec fn login_code_verdict(
    u: UserView,
    code: Seq<char>,
    now: int,
) -> Result<(), ErrorView> {
    match (u.two_fa_code, u.two_fa_expiry) {
        (Some(stored), Some(expiry)) => if stored != code {
            Err(invalid_code())
        } else if expired(now, expiry) {
            Err(code_expired())
        } else {
            Ok(())
        },
        _ => Err(ErrorView::InternalServerError),
    }
}

/// What answering a login challenge does. The account is found by the
/// handle. A rejected answer changes nothing, nor does a failure to issue.
/// An accepted answer issues a session that carries the second factor, and
/// uses up the handle; the code stays in its slot.
pub open spec fn verify_2fa_step(
    s: Seq<UserView>,
    secret: Seq<char>,
    temp_token: Seq<char>,
    code: Seq<char>,
    now: int,
) -> (Seq<UserView>, Result<Seq<char>, ErrorView>) {
    match lookup(s, KeyKind::TempToken, temp_token) {
        None => (s, Err(invalid_temp_token())),
        Some(i) => match login_code_verdict(s[i], code, now) {
            Err(e) => (s, Err(e)),
            Ok(_) => match session_outcome(secret, s[i].username, true, now) {
                Err(e) => (s, Err(e)),
                Ok(token) => (s.update(i, s[i].without_temp_token()), Ok(token)),
            },
        },
    }
}

/// Builds the login challenge for `username` from secrets already drawn.
pub fn handle_2fa_with(
    store: &CredentialStore,
    username: &str,
    code: String,
    temp_token: String,
) -> (r: Result<Challenge, ServiceError>)
    ensures
        challenge_outcome(r) == login_challenge(store@, username@, code@, temp_token@),
{
    match store.find_by_username(username) {
        None => Err(ServiceError::bad_request("User not found")),
        Some(i) => Ok(
            Challenge::new(
                CodePurpose::Login,
                username.to_owned(),
                store.get(i).email.as_str(),
                code,
                temp_token,
            ),
        ),
    }
}

/// First step of a login challenge: draws a code of six letters and digits
/// and a handle, and writes the message that carries the code to the
/// account's address. Nothing is stored yet. The caller delivers the
/// message and goes on with `finish_handle_2fa`.
pub fn handle_2fa(store: &CredentialStore, username: &str) -> (r: Result<Challenge, ServiceError>)
    ensures
        (match r {
            Ok(challenge) => {
                &&& is_secret(challenge.code@, CODE_LENGTH as nat)
                &&& is_handle(challenge.temp_token@)
                &&& login_challenge(store@, username@, challenge.code@, challenge.temp_token@)
                    == Ok::<ChallengeView, ErrorView>(challenge@)
            },
            Err(e) => {
                &&& e@ == user_not_found()
                &&& lookup(store@, KeyKind::Username, username@) is None
            },
        }),
{
    let code = generate_2fa_code();
    let temp_token = generate_temp_token();
    handle_2fa_with(store, username, code, temp_token)
}

/// Stores a login challenge at a given time, after its message went out or
/// failed to.
pub fn finish_handle_2fa_at(
    store: &mut CredentialStore,
    challenge: &Challenge,
    delivered: bool,
    now: i64,
) -> (r: Result<String, ServiceError>)
    ensures
        (final(store)@, text_outcome(r)) == login_challenge_step(
            old(store)@,
            challenge.username@,
            challenge.code@,
            challenge.temp_token@,
            delivered,
            now as int,
        ),
        unique_identities(old(store)@) ==> unique_identities(final(store)@),
{
    if !delivered {
        return Err(ServiceError::InternalServerError);
    }
    let code_expiry = expiry_after(now, LOGIN_CODE_LIFETIME);
    let temp_token_expiry = expiry_after(now, TEMP_TOKEN_LIFETIME);
    match (code_expiry, temp_token_expiry) {
        (Some(code_expiry), Some(temp_token_expiry)) => {
            match store.find_by_username(challenge.username.as_str()) {
                Some(i) => {
                    store.set_login_challenge(
                        i,
                        challenge.code.clone(),
                        code_expiry,
                        challenge.temp_token.clone(),
                        temp_token_expiry,
                    );
                },
                None => {},
            }
            Ok(challenge.temp_token.clone())
        },
        _ => Err(ServiceError::InternalServerError),
    }
}

/// Second step of a login challenge. Where the message was not delivered,
/// the flow fails and nothing is stored. Else the code is stored for three
/// minutes and the handle for ten, counted from the clock's reading, and
/// the handle is returned.
pub fn finish_handle_2fa(
    store: &mut CredentialStore,
    challenge: &Challenge,
    delivered: bool,
) -> (r: Result<String, ServiceError>)
    ensures
        exists|now: int|
            is_reading(now) && #[trigger] login_challenge_step(
                old(store)@,
                challenge.username@,
                challenge.code@,
                challenge.temp_token@,
                delivered,
                now,
            ) == (final(store)@, text_outcome(r)),
        delivered ==> text_outcome(r) == Ok::<Seq<char>, ErrorView>(challenge.temp_token@),
        !delivered ==> final(store)@ == old(store)@ && r is Err,
        unique_identities(old(store)@) ==> unique_identities(final(store)@),
{
    let now: i64 = unix_now();
    let r = finish_handle_2fa_at(store, challenge, delivered, now);
    assert(login_challenge_step(
        old(store)@,
        challenge.username@,
        challenge.code@,
        challenge.temp_token@,
        delivered,
        now as int,
    ) == (store@, text_outcome(r)));
    r
}

/// Answers a login challenge at a given time.
pub fn verify_2fa_at(
    store: &mut CredentialStore,
    config: &Config,
    info: &Verify2FARequest,
    now: i64,
) -> (r: Result<String, ServiceError>)
    ensures
        (final(store)@, text_outcome(r)) == verify_2fa_step(
            old(store)@,
            config.jwt_secret@,
            info.temp_token@,
            info.code@,
            now as int,
        ),
        unique_identities(old(store)@) ==> unique_identities(final(store)@),
{
    let i = match store.find_by_temp_token(info.temp_token.as_str()) {
        Some(i) => i,
        None => {
            return Err(ServiceError::bad_request("Invalid temporary token."));
        },
    };
    let record = store.get(i);
    let expiry = match (&record.two_fa_code, record.two_fa_expiry) {
        (Some(stored), Some(expiry)) => {
            if *stored != info.code {
                return Err(ServiceError::bad_request("Invalid 2FA code."));
            }
            expiry
        },
        _ => {
            return Err(ServiceError::InternalServerError);
        },
    };
    if is_expired(now, expiry) {
        return Err(ServiceError::bad_request("2FA code has expired."));
    }
    let token = issue_session(config.jwt_secret.as_str(), record.username.as_str(), true, now)?;
    store.clear_temp_token(i);
    Ok(token)
}

/// Answers a login challenge: the handle finds the account, and the code
/// must be the one sent and still alive at the clock's reading. Success
/// gives a session that carries the second factor and uses up the handle.
/// Any failure leaves the store as it was, so that a right answer may
/// still follow a wrong one.
pub fn verify_2fa(
    store: &mut CredentialStore,
    config: &Config,
    info: &Verify2FARequest,
) -> (r: Result<String, ServiceError>)
    ensures
        exists|now: int|
            is_reading(now) && #[trigger] verify_2fa_step(
                old(store)@,
                config.jwt_secret@,
                info.temp_token@,
                info.code@,
                now,
            ) == (final(store)@, text_outcome(r)),
        r is Err ==> final(store)@ == old(store)@,
        unique_identities(old(store)@) ==> unique_identities(final(store)@),
{
    let now: i64 = unix_now();
    let r = verify_2fa_at(store, config, info, now);
    assert(verify_2fa_step(
        old(store)@,
        config.jwt_secret@,
        info.temp_token@,
        info.code@,
        now as int,
    ) == (store@, text_outcome(r)));
    r
}

} // verus!
