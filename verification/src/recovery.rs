//! Password recovery: a reset link by email, then the new password.

use vstd::prelude::*;
use crate::clock::{
    deadline, expired, expiry_after, is_expired, is_reading, unix_now, ONE_DAY,
};
use crate::config::Config;
use crate::error::{index_outcome, unit_outcome, ErrorView, ServiceError};
use crate::mail::{reset_mail, Mail};
use crate::password::{hash_password, password_accepted};
use crate::request::{ForgotPasswordRequest, ResetPasswordRequest};
use crate::secret::{generate_token, is_secret, TOKEN_LENGTH};
use crate::store::{lookup, text_view, unique_identities, CredentialStore, KeyKind, UserView};

verus! {

/// A reset that was decided on and is not yet stored: the message with the
/// link goes out first.
#[derive(Debug, Clone, PartialEq, Eq)]
pub struct ResetDispatch {
    pub email: String,
    pub token: String,
    pub mail: Mail,
}

/// The failure of a reset for an address that no account has.
pub open spec fn email_not_found() -> ErrorView {
    ErrorView::BadRequest("Email not found."@)
}

/// The failure of a reset with the wrong token.
pub open spec fn invalid_reset_token() -> ErrorView {
    ErrorView::BadRequest("Invalid reset token."@)
}

/// The failure of a reset that comes after its token has died.
pub open spec fn reset_token_expired() -> ErrorView {
    ErrorView::BadRequest("Reset token has expired."@)
}

/// What storing a reset token does. Without delivery nothing is stored and
/// the flow fails; the same where the expiry cannot be written down. Else
/// the flow succeeds whether or not the address is known, so that the
/// answer does not tell; a known account gets the token for one day.
pub open spec fn forgot_step(
    s: Seq<UserView>,
    email: Seq<char>,
    token: Seq<char>,
    delivered: bool,
    now: int,
) -> (Seq<UserView>, Result<(), ErrorView>) {
    match deadline(now, ONE_DAY as int) {
        Some(expiry) if delivered => match lookup(s, KeyKind::Email, email) {
            Some(i) => (s.update(i, s[i].with_reset_token(token, expiry)), Ok(())),
            None => (s, Ok(())),
        },
        _ => (s, Err(ErrorView::InternalServerError)),
    }
}

/// How a reset fares against an account: the token and its expiry must be
/// there, the token must be the one sent, and the clock must not have
/// passed the expiry.
pub open spec fn reset_verdict(u: UserView, token: Seq<char>, now: int) -> Result<(), ErrorView> {
    match (u.reset_password_token, u.reset_token_expiry) {
        (Some(stored), Some(expiry)) => if stored != token {
            Err(invalid_reset_token())
        } else if expired(now, expiry) {
            Err(reset_token_expired())
        } else {
            Ok(())
        },
        _ => Err(ErrorView::InternalServerError),
    }
}

/// Whose password a reset may replace: the account of the address, where
/// the token passes.
pub open spec fn reset_check(
    s: Seq<UserView>,
    email: Seq<char>,
    token: Seq<char>,
    now: int,
) -> Result<int, ErrorView> {
    match lookup(s, KeyKind::Email, email) {
        None => Err(email_not_found()),
        Some(i) => match reset_verdict(s[i], token, now) {
            Err(e) => Err(e),
            Ok(_) => Ok(i),
        },
    }
}

/// What a reset does. A reset that does not pass changes nothing. One that
/// passes needs the new password hashed; then the hash replaces the old
/// one and the token is used up.
pub open spec fn reset_step(
    s: Seq<UserView>,
    email: Seq<char>,
    token: Seq<char>,
    new_hash: Option<Seq<char>>,
    now: int,
) -> (Seq<UserView>, Result<(), ErrorView>) {
    match reset_check(s, email, token, now) {
        Err(e) => (s, Err(e)),
        Ok(i) => match new_hash {
            None => (s, Err(ErrorView::InternalServerError)),
            Some(hash) => (s.update(i, s[i].with_new_password(hash)), Ok(())),
        },
    }
}

/// The store went from `before` to `after`, and the caller got `outcome`,
/// as a reset does with this reading of the clock and this outcome of the
/// hashing: a hash that opens for the new password, or none.
pub open spec fn was_reset(
    before: Seq<UserView>,
    after: Seq<UserView>,
    outcome: Result<(), ErrorView>,
    email: Seq<char>,
    token: Seq<char>,
    new_password: Seq<char>,
    new_hash: Option<Seq<char>>,
    now: int,
) -> bool {
    &&& is_reading(now)
    &&& new_hash matches Some(hash) ==> password_accepted(new_password, hash)
    &&& (after, outcome) == reset_step(before, email, token, new_hash, now)
}

/// First step of a password recovery: draws a token of thirty letters and
/// digits and writes the message with the reset link. Whether the address
/// belongs to an account is not looked at. The caller delivers the message
/// and goes on with `finish_forgot_password`.
pub fn forgot_password(config: &Config, info: &ForgotPasswordRequest) -> (dispatch: ResetDispatch)
    ensures
        dispatch.email@ == info.email@,
        is_secret(dispatch.token@, TOKEN_LENGTH as nat),
        dispatch.mail@ == reset_mail(config.reset_password_base_url@, info.email@, dispatch.token@),
{
    let token = generate_token();
    let mail = Mail::reset(
        config.reset_password_base_url.as_str(),
        info.email.as_str(),
        token.as_str(),
    );
    ResetDispatch { email: info.email.clone(), token, mail }
}

/// Stores a reset token at a given time, after its message went out or
/// failed to.
pub fn finish_forgot_password_at(
    store: &mut CredentialStore,
    dispatch: &ResetDispatch,
    delivered: bool,
    now: i64,
) -> (r: Result<(), ServiceError>)
    ensures
        (final(store)@, unit_outcome(r)) == forgot_step(
            old(store)@,
            dispatch.email@,
            dispatch.token@,
            delivered,
            now as int,
        ),
        unique_identities(old(store)@) ==> unique_identities(final(store)@),
{
    if !delivered {
        return Err(ServiceError::InternalServerError);
    }
    let expiry = match expiry_after(now, ONE_DAY) {
        Some(expiry) => expiry,
        None => {
            return Err(ServiceError::InternalServerError);
        },
    };
    match store.find_by_email(dispatch.email.as_str()) {
        Some(i) => {
            store.set_reset_token(i, dispatch.token.clone(), expiry);
        },
        None => {},
    }
    Ok(())
}

/// Second step of a password recovery. Where the message was not
/// delivered, the flow fails and nothing is stored. Else the token is
/// stored for one day from the clock's reading, on the account of the
/// address if there is one, and the flow succeeds either way.
pub fn finish_forgot_password(
    store: &mut CredentialStore,
    dispatch: &ResetDispatch,
    delivered: bool,
) -> (r: Result<(), ServiceError>)
    ensures
        exists|now: int|
            is_reading(now) && #[trigger] forgot_step(
                old(store)@,
                dispatch.email@,
                dispatch.token@,
                delivered,
                now,
            ) == (final(store)@, unit_outcome(r)),
        delivered ==> r is Ok,
        !delivered ==> final(store)@ == old(store)@ && r is Err,
        unique_identities(old(store)@) ==> unique_identities(final(store)@),
{
    let now: i64 = unix_now();
    let r = finish_forgot_password_at(store, dispatch, delivered, now);
    assert(forgot_step(old(store)@, dispatch.email@, dispatch.token@, delivered, now as int) == (
        store@,
        unit_outcome(r),
    ));
    r
}

/// Finds the account whose password the request may replace at a given
/// time.
pub fn check_reset(
    store: &CredentialStore,
    info: &ResetPasswordRequest,
    now: i64,
) -> (r: Result<usize, ServiceError>)
    ensures
        index_outcome(r) == reset_check(store@, info.email@, info.token@, now as int),
        r matches Ok(i) ==> i < store@.len(),
{
    proof {
        crate::store::lemma_lookup_sound(store@, KeyKind::Email, info.email@);
    }
    let i = match store.find_by_email(info.email.as_str()) {
        Some(i) => i,
        None => {
            return Err(ServiceError::bad_request("Email not found."));
        },
    };
    let record = store.get(i);
    match (&record.reset_password_token, record.reset_token_expiry) {
        (Some(stored), Some(expiry)) => {
            if *stored != info.token {
                Err(ServiceError::bad_request("Invalid reset token."))
            } else if is_expired(now, expiry) {
                Err(ServiceError::bad_request("Reset token has expired."))
            } else {
                Ok(i)
            }
        },
        _ => Err(ServiceError::InternalServerError),
    }
}

/// Resets a password at a given time with the new password already hashed.
pub fn reset_password_at(
    store: &mut CredentialStore,
    info: &ResetPasswordRequest,
    new_hash: Option<String>,
    now: i64,
) -> (r: Result<(), ServiceError>)
    ensures
        (final(store)@, unit_outcome(r)) == reset_step(
            old(store)@,
            info.email@,
            info.token@,
            text_view(new_hash),
            now as int,
        ),
        unique_identities(old(store)@) ==> unique_identities(final(store)@),
{
    let i = check_reset(store, info, now)?;
    match new_hash {
        None => Err(ServiceError::InternalServerError),
        Some(hash) => {
            store.set_password(i, hash);
            Ok(())
        },
    }
}

/// Resets a password. The account is found by the address; the token must
/// be the one stored and alive at the clock's reading. Then the new
/// password is hashed, the hash replaces the old one, and the token is
/// used up. A reset that is turned down changes nothing.
pub fn reset_password(
    store: &mut CredentialStore,
    info: &ResetPasswordRequest,
) -> (r: Result<(), ServiceError>)
    ensures
        exists|new_hash: Option<Seq<char>>, now: int| #[trigger]
            was_reset(
                old(store)@,
                final(store)@,
                unit_outcome(r),
                info.email@,
                info.token@,
                info.new_password@,
                new_hash,
                now,
            ),
        r is Err ==> final(store)@ == old(store)@,
        unique_identities(old(store)@) ==> unique_identities(final(store)@),
{
    let now: i64 = unix_now();
    match check_reset(store, info, now) {
        Err(e) => {
            assert(was_reset(
                old(store)@,
                store@,
                Err(e@),
                info.email@,
                info.token@,
                info.new_password@,
                None,
                now as int,
            ));
            Err(e)
        },
        Ok(_) => {
            let new_hash: Option<String> = match hash_password(info.new_password.as_str()) {
                Ok(hash) => Some(hash),
                Err(_) => None,
            };
            let ghost hash_view = text_view(new_hash);
            let r = reset_password_at(store, info, new_hash, now);
            assert(was_reset(
                old(store)@,
                store@,
                unit_outcome(r),
                info.email@,
                info.token@,
                info.new_password@,
                hash_view,
                now as int,
            ));
            r
        },
    }
}

} // verus!
