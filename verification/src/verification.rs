//! Proving an address: the click on the link, and sending the link again.

use vstd::prelude::*;
use crate::clock::{expired, is_expired, is_reading, unix_now};
use crate::config::Config;
use crate::error::{unit_outcome, ErrorView, ServiceError};
use crate::mail::{verification_mail, Mail, MailView};
use crate::request::{ResendVerificationRequest, VerifyQuery};
use crate::store::{lookup, unique_identities, CredentialStore, KeyKind, UserView};

verus! {

/// How many attempts a verification token allows.
pub const MAX_VERIFICATION_ATTEMPTS: u32 = 5;

/// The failure of a click whose token no account holds.
pub open spec fn invalid_request() -> ErrorView {
    ErrorView::BadRequest("Invalid request"@)
}

/// The failure of a click on the link of a verified account.
pub open spec fn already_verified() -> ErrorView {
    ErrorView::BadRequest("Email already verified"@)
}

/// The failure of a click on a link that was tried too often.
pub open spec fn too_many_attempts() -> ErrorView {
    ErrorView::BadRequest("Too many verification attempts"@)
}

/// The failure of a click on a link that has died.
pub open spec fn token_expired() -> ErrorView {
    ErrorView::BadRequest("Verification token has expired"@)
}

/// The failure of a request to send the link again that finds nobody to
/// send it to.
pub open spec fn nothing_to_resend() -> ErrorView {
    ErrorView::BadRequest("Email already verified or not found"@)
}

/// How a click fares against the account that holds the token, in this
/// order: a verified account has nothing left to prove; a token that has
/// used its attempts is dead for good; a token past its expiry is turned
/// down; else the address is proved.
pub open spec fn verification_verdict(u: UserView, now: int) -> Result<(), ErrorView> {
    if u.verified {
        Err(already_verified())
    } else if u.verification_attempts >= MAX_VERIFICATION_ATTEMPTS {
        Err(too_many_attempts())
    } else if expired(now, u.token_expiry) {
        Err(token_expired())
    } else {
        Ok(())
    }
}

/// What a click does to the account that holds the token: nothing where it
/// is verified or out of attempts; else it counts as an attempt, and proves
/// the address where the token is alive.
pub open spec fn after_verification(u: UserView, now: int) -> UserView {
    if u.verified || u.verification_attempts >= MAX_VERIFICATION_ATTEMPTS {
        u
    } else {
        u.with_verification_attempt(!expired(now, u.token_expiry))
    }
}

/// What a click on a verification link does: it finds the account by the
/// token, or fails; the account found is judged and changed as above, and
/// no other account is touched.
pub open spec fn verification_step(s: Seq<UserView>, token: Seq<char>, now: int) -> (
    Seq<UserView>,
    Result<(), ErrorView>,
) {
    match lookup(s, KeyKind::VerificationToken, token) {
        None => (s, Err(invalid_request())),
        Some(i) => (s.update(i, after_verification(s[i], now)), verification_verdict(s[i], now)),
    }
}

/// The message that sends the link again: to the account of this address,
/// where there is one and it is not verified, with the token it has.
pub open spec fn resend_outcome(
    s: Seq<UserView>,
    base_url: Seq<char>,
    email: Seq<char>,
) -> Result<MailView, ErrorView> {
    match lookup(s, KeyKind::Email, email) {
        Some(i) => if s[i].verified {
            Err(nothing_to_resend())
        } else {
            Ok(verification_mail(base_url, email, s[i].verification_token))
        },
        None => Err(nothing_to_resend()),
    }
}

/// What a `Result<Mail, ServiceError>` says, over views.
pub open spec fn mail_outcome(r: Result<Mail, ServiceError>) -> Result<MailView, ErrorView> {
    match r {
        Ok(m) => Ok(m@),
        Err(e) => Err(e@),
    }
}

/// Handles a click on a verification link at a given time.
pub fn handle_verification_link_at(
    store: &mut CredentialStore,
    query: &VerifyQuery,
    now: i64,
) -> (r: Result<(), ServiceError>)
    ensures
        (final(store)@, unit_outcome(r)) == verification_step(
            old(store)@,
            query.token@,
            now as int,
        ),
        unique_identities(old(store)@) ==> unique_identities(final(store)@),
{
    let i = match store.find_by_verification_token(query.token.as_str()) {
        Some(i) => i,
        None => {
            return Err(ServiceError::bad_request("Invalid request"));
        },
    };
    let ghost before = store@;
    let record = store.get(i);
    if record.verified {
        assert(before.update(i as int, before[i as int]) =~= before);
        return Err(ServiceError::bad_request("Email already verified"));
    }
    if record.verification_attempts >= MAX_VERIFICATION_ATTEMPTS {
        assert(before.update(i as int, before[i as int]) =~= before);
        return Err(ServiceError::bad_request("Too many verification attempts"));
    }
    if is_expired(now, record.token_expiry) {
        store.record_verification_attempt(i, false);
        return Err(ServiceError::bad_request("Verification token has expired"));
    }
    store.record_verification_attempt(i, true);
    Ok(())
}

/// Handles a click on a verification link. The token finds the account;
/// an unknown token fails and changes nothing. A verified account and a
/// token out of attempts are turned down without counting. A token past
/// its expiry at the clock's reading is turned down and counted. Else the
/// address is proved and the attempt counted.
pub fn handle_verification_link(
    store: &mut CredentialStore,
    query: &VerifyQuery,
) -> (r: Result<(), ServiceError>)
    ensures
        exists|now: int|
            is_reading(now) && #[trigger] verification_step(old(store)@, query.token@, now) == (
                final(store)@,
                unit_outcome(r),
            ),
        unique_identities(old(store)@) ==> unique_identities(final(store)@),
{
    let now: i64 = unix_now();
    let r = handle_verification_link_at(store, query, now);
    assert(verification_step(old(store)@, query.token@, now as int) == (store@, unit_outcome(r)));
    r
}

/// Writes the verification message once more, for the account of this
/// address where it is not verified yet. The token and its expiry stay as
/// they are, and the expiry is not looked at. The caller delivers the
/// message and reports with `confirm_delivery`.
pub fn resend_verification(
    store: &CredentialStore,
    config: &Config,
    info: &ResendVerificationRequest,
) -> (r: Result<Mail, ServiceError>)
    ensures
        mail_outcome(r) == resend_outcome(store@, config.verification_base_url@, info.email@),
{
    match store.find_by_email(info.email.as_str()) {
        Some(i) => {
            let record = store.get(i);
            if record.verified {
                Err(ServiceError::bad_request("Email already verified or not found"))
            } else {
                Ok(
                    Mail::verification(
                        config.verification_base_url.as_str(),
                        info.email.as_str(),
                        record.verification_token.as_str(),
                    ),
                )
            }
        },
        None => Err(ServiceError::bad_request("Email already verified or not found")),
    }
}

/// The end of a flow that only had a message to deliver: it succeeds where
/// the message went out, and fails as an internal error where it did not.
pub fn confirm_delivery(delivered: bool) -> (r: Result<(), ServiceError>)
    ensures
        unit_outcome(r) == if delivered {
            Ok::<(), ErrorView>(())
        } else {
            Err::<(), ErrorView>(ErrorView::InternalServerError)
        },
{
    if delivered {
        Ok(())
    } else {
        Err(ServiceError::InternalServerError)
    }
}

} // verus!
