//! Login by username and password.

use vstd::prelude::*;
use crate::clock::{is_reading, unix_now};
use crate::config::Config;
use crate::error::{index_outcome, ErrorView, ServiceError};
use crate::mail::CodePurpose;
use crate::password::{password_accepted, verify_password};
use crate::request::LoginRequest;
use crate::secret::{is_handle, is_secret, CODE_LENGTH};
use crate::session::{issue_session, session_outcome};
use crate::store::{lookup, CredentialStore, KeyKind, UserView};
use crate::two_factor::{challenge_for, handle_2fa, Challenge};

verus! {

/// Where a login stands once the password has been accepted.
#[derive(Debug, Clone, PartialEq, Eq)]
pub enum LoginStep {
    /// The account has no second factor: this is its session token.
    Session(String),
    /// The account has a second factor: this challenge is to be delivered
    /// and stored before the login can be completed.
    Challenge(Challenge),
}

/// The one failure of a login. An unknown name, a wrong password and an
/// unverified address all read the same, so that the answer does not tell
/// which it was.
pub open spec fn login_refused() -> ErrorView {
    ErrorView::BadRequest(
        "Invalid username or password. If you haven't verified your email, please do so."@,
    )
}

/// Whom a username and password let in: the account of that name, where
/// the password opens its hash and its address is verified.
pub open spec fn authentication(
    s: Seq<UserView>,
    username: Seq<char>,
    password: Seq<char>,
) -> Result<int, ErrorView> {
    match lookup(s, KeyKind::Username, username) {
        Some(i) => if password_accepted(password, s[i].password_hash) && s[i].verified {
            Ok(i)
        } else {
            Err(login_refused())
        },
        None => Err(login_refused()),
    }
}

/// A login ended as `expected` says: with that session token, or with
/// that failure; and not with a challenge.
pub open spec fn session_step(
    r: Result<LoginStep, ServiceError>,
    expected: Result<Seq<char>, ErrorView>,
) -> bool {
    match r {
        Ok(LoginStep::Session(token)) => expected == Ok::<Seq<char>, ErrorView>(token@),
        Ok(LoginStep::Challenge(_)) => false,
        Err(e) => expected == Err::<Seq<char>, ErrorView>(e@),
    }
}

/// Finds the account that the credentials let in.
pub fn authenticate(
    store: &CredentialStore,
    info: &LoginRequest,
) -> (r: Result<usize, ServiceError>)
    ensures
        index_outcome(r) == authentication(store@, info.username@, info.password@),
        r matches Ok(i) ==> i < store@.len(),
{
    proof {
        crate::store::lemma_lookup_sound(store@, KeyKind::Username, info.username@);
    }
    match store.find_by_username(info.username.as_str()) {
        None => Err(
            ServiceError::bad_request(
                "Invalid username or password. If you haven't verified your email, please do so.",
            ),
        ),
        Some(i) => {
            let record = store.get(i);
            if !verify_password(info.password.as_str(), record.password_hash.as_str()) {
                return Err(
                    ServiceError::bad_request(
                        "Invalid username or password. If you haven't verified your email, please do so.",
                    ),
                );
            }
            if !record.verified {
                return Err(
                    ServiceError::bad_request(
                        "Invalid username or password. If you haven't verified your email, please do so.",
                    ),
                );
            }
            Ok(i)
        },
    }
}

/// What a login gives for an account without second factor at `now`, and
/// what it must give for one with a second factor, whatever secrets were
/// drawn for it.
pub open spec fn logged_in(
    s: Seq<UserView>,
    secret: Seq<char>,
    username: Seq<char>,
    password: Seq<char>,
    now: int,
    r: Result<LoginStep, ServiceError>,
) -> bool {
    match authentication(s, username, password) {
        Err(e) => r matches Err(x) && x@ == e,
        Ok(i) => if s[i].has_2fa {
            &&& r matches Ok(LoginStep::Challenge(challenge))
            &&& is_secret(challenge.code@, CODE_LENGTH as nat)
            &&& is_handle(challenge.temp_token@)
            &&& challenge@ == challenge_for(
                CodePurpose::Login,
                username,
                s[i].email,
                challenge.code@,
                challenge.temp_token@,
            )
        } else {
            session_step(r, session_outcome(secret, username, false, now))
        },
    }
}

/// Logs in at a given time. Credentials that do not let anyone in are
/// refused with the one generic failure. An account with a second factor
/// never gets a session here: it gets a fresh challenge, to be delivered
/// and then stored with `finish_handle_2fa`. An account without one gets
/// its session, issued at `now` for its name and without the
/// second-factor flag. The store is only read.
pub fn login_at(
    store: &CredentialStore,
    config: &Config,
    info: &LoginRequest,
    now: i64,
) -> (r: Result<LoginStep, ServiceError>)
    ensures
        logged_in(store@, config.jwt_secret@, info.username@, info.password@, now as int, r),
{
    let i = authenticate(store, info)?;
    if store.get(i).has_2fa {
        proof {
            crate::store::lemma_lookup_sound(store@, KeyKind::Username, info.username@);
        }
        match handle_2fa(store, info.username.as_str()) {
            Ok(challenge) => Ok(LoginStep::Challenge(challenge)),
            Err(e) => Err(e),
        }
    } else {
        match issue_session(config.jwt_secret.as_str(), info.username.as_str(), false, now) {
            Ok(token) => Ok(LoginStep::Session(token)),
            Err(e) => Err(e),
        }
    }
}

/// Logs in, at the clock's reading.
pub fn login(
    store: &CredentialStore,
    config: &Config,
    info: &LoginRequest,
) -> (r: Result<LoginStep, ServiceError>)
    ensures
        exists|now: int|
            is_reading(now) && #[trigger] logged_in(
                store@,
                config.jwt_secret@,
                info.username@,
                info.password@,
                now,
                r,
            ),
{
    let now: i64 = unix_now();
    let r = login_at(store, config, info, now);
    assert(logged_in(store@, config.jwt_secret@, info.username@, info.password@, now as int, r));
    r
}

} // verus!
