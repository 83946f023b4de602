//! Registration: check the input, ask for the address to be proved where
//! that is switched on, store the account and issue its first session.

use vstd::prelude::*;
use crate::clock::{deadline, expiry_after, is_reading, unix_now, ONE_DAY};
use crate::config::Config;
use crate::error::{text_outcome, ErrorView, ServiceError};
use crate::mail::{mail_view, verification_mail, Mail, MailView};
use crate::password::{hash_password, password_accepted};
use crate::request::{valid_registration, RegisterRequest};
use crate::secret::{generate_token, is_secret, TOKEN_LENGTH};
use crate::session::{issue_session, session_outcome};
use crate::store::{lookup, unique_identities, CredentialStore, KeyKind, UserView};

verus! {

/// What registration decides before the account is stored: the token that
/// the account will carry, and the message to deliver first, if any.
#[derive(Debug, Clone, PartialEq, Eq)]
pub struct VerificationDispatch {
    /// Empty where the address need not be proved.
    pub token: String,
    pub mail: Option<Mail>,
}

/// The failure of a registration whose input breaks the rules.
pub open spec fn invalid_input() -> ErrorView {
    ErrorView::BadRequest("Invalid input data."@)
}

/// The failure of a registration whose username or address is taken.
pub open spec fn identity_taken() -> ErrorView {
    ErrorView::BadRequest("Username or email already registered"@)
}

/// The message that goes with a verification token: none for the empty
/// token, else the link to the address that registers.
pub open spec fn verification_notice(
    base_url: Seq<char>,
    email: Seq<char>,
    token: Seq<char>,
) -> Option<MailView> {
    if token.len() == 0 {
        None
    } else {
        Some(verification_mail(base_url, email, token))
    }
}

/// What storing a new account does. The password must have been hashed
/// and the expiry of the verification token must be expressible, else
/// nothing is stored. A taken username or address is turned down. Else the
/// account is added, verified exactly where its token is empty, and the
/// session of the new account is issued; the account stays even where
/// issuing fails.
pub open spec fn registration_step(
    s: Seq<UserView>,
    secret: Seq<char>,
    username: Seq<char>,
    email: Seq<char>,
    password_hash: Option<Seq<char>>,
    verification_token: Seq<char>,
    now: int,
) -> (Seq<UserView>, Result<Seq<char>, ErrorView>) {
    match (password_hash, deadline(now, ONE_DAY as int)) {
        (Some(hash), Some(expiry)) => if lookup(s, KeyKind::Username, username) is Some || lookup(
            s,
            KeyKind::Email,
            email,
        ) is Some {
            (s, Err(identity_taken()))
        } else {
            (
                s.push(
                    UserView::fresh(
                        username,
                        email,
                        hash,
                        verification_token,
                        expiry,
                        verification_token.len() == 0,
                    ),
                ),
                session_outcome(secret, username, false, now),
            )
        },
        _ => (s, Err(ErrorView::InternalServerError)),
    }
}

/// The store went from `before` to `after`, and the caller got `outcome`,
/// as storing the account does with this reading of the clock and this
/// outcome of the hashing: a hash that opens for the password, or none.
pub open spec fn registered(
    before: Seq<UserView>,
    after: Seq<UserView>,
    outcome: Result<Seq<char>, ErrorView>,
    secret: Seq<char>,
    username: Seq<char>,
    email: Seq<char>,
    password: Seq<char>,
    verification_token: Seq<char>,
    password_hash: Option<Seq<char>>,
    now: int,
) -> bool {
    &&& is_reading(now)
    &&& password_hash matches Some(hash) ==> password_accepted(password, hash)
    &&& (after, outcome) == registration_step(
        before,
        secret,
        username,
        email,
        password_hash,
        verification_token,
        now,
    )
}

/// Decides what a new account must prove. Where verification is switched
/// off, nothing: the token is empty and there is no message. Where it is
/// on, a fresh token of thirty letters and digits, and the message with
/// the link that carries it.
pub fn handle_email_verification(
    config: &Config,
    info: &RegisterRequest,
) -> (dispatch: VerificationDispatch)
    ensures
        config.email_verification_enabled ==> is_secret(dispatch.token@, TOKEN_LENGTH as nat),
        !config.email_verification_enabled ==> dispatch.token@.len() == 0,
        mail_view(dispatch.mail) == verification_notice(
            config.verification_base_url@,
            info.email@,
            dispatch.token@,
        ),
{
    if !config.email_verification_enabled {
        let token = String::new();
        return VerificationDispatch { token, mail: None };
    }
    let token = generate_token();
    let mail = Mail::verification(
        config.verification_base_url.as_str(),
        info.email.as_str(),
        token.as_str(),
    );
    VerificationDispatch { token, mail: Some(mail) }
}

/// Stores the account with an already hashed password at a given time, and
/// issues its first session.
pub fn store_account(
    store: &mut CredentialStore,
    config: &Config,
    info: &RegisterRequest,
    verification_token: &str,
    password_hash: Option<String>,
    now: i64,
) -> (r: Result<String, ServiceError>)
    ensures
        (final(store)@, text_outcome(r)) == registration_step(
            old(store)@,
            config.jwt_secret@,
            info.username@,
            info.email@,
            crate::store::text_view(password_hash),
            verification_token@,
            now as int,
        ),
        unique_identities(old(store)@) ==> unique_identities(final(store)@),
{
    let hash = match password_hash {
        Some(hash) => hash,
        None => {
            return Err(ServiceError::InternalServerError);
        },
    };
    let expiry = match expiry_after(now, ONE_DAY) {
        Some(expiry) => expiry,
        None => {
            return Err(ServiceError::InternalServerError);
        },
    };
    let verified = verification_token.unicode_len() == 0;
    match store.insert_user(
        info.username.clone(),
        info.email.clone(),
        hash,
        verification_token.to_owned(),
        expiry,
        verified,
    ) {
        Err(_) => Err(ServiceError::bad_request("Username or email already registered")),
        Ok(()) => issue_session(config.jwt_secret.as_str(), info.username.as_str(), false, now),
    }
}

/// Hashes the password, stores the account and issues its first session.
/// The account is verified from the start exactly where the token is
/// empty. The hash and the time are whatever the hashing and the clock
/// give; the hash opens for the password.
pub fn handle_database_and_token_generation(
    store: &mut CredentialStore,
    config: &Config,
    info: &RegisterRequest,
    verification_token: &str,
) -> (r: Result<String, ServiceError>)
    ensures
        exists|password_hash: Option<Seq<char>>, now: int| #[trigger]
            registered(
                old(store)@,
                final(store)@,
                text_outcome(r),
                config.jwt_secret@,
                info.username@,
                info.email@,
                info.password@,
                verification_token@,
                password_hash,
                now,
            ),
        unique_identities(old(store)@) ==> unique_identities(final(store)@),
{
    let password_hash: Option<String> = match hash_password(info.password.as_str()) {
        Ok(hash) => Some(hash),
        Err(_) => None,
    };
    let now: i64 = unix_now();
    let ghost hash_view = crate::store::text_view(password_hash);
    let r = store_account(store, config, info, verification_token, password_hash, now);
    assert(registered(
        old(store)@,
        store@,
        text_outcome(r),
        config.jwt_secret@,
        info.username@,
        info.email@,
        info.password@,
        verification_token@,
        hash_view,
        now as int,
    ));
    r
}

/// First step of a registration: turns down input that breaks the rules,
/// else decides what the account must prove. The caller delivers the
/// message, if there is one, and goes on with `finish_create_account`.
pub fn create_account(
    config: &Config,
    info: &RegisterRequest,
) -> (r: Result<VerificationDispatch, ServiceError>)
    ensures
        (match r {
            Err(e) => e@ == invalid_input() && !valid_registration(
                info.username@,
                info.email@,
                info.password@,
            ),
            Ok(dispatch) => {
                &&& valid_registration(info.username@, info.email@, info.password@)
                &&& config.email_verification_enabled ==> is_secret(
                    dispatch.token@,
                    TOKEN_LENGTH as nat,
                )
                &&& !config.email_verification_enabled ==> dispatch.token@.len() == 0
                &&& mail_view(dispatch.mail) == verification_notice(
                    config.verification_base_url@,
                    info.email@,
                    dispatch.token@,
                )
            },
        }),
{
    if !info.validate() {
        return Err(ServiceError::bad_request("Invalid input data."));
    }
    Ok(handle_email_verification(config, info))
}

/// Second step of a registration. Where a message had to be delivered and
/// was not, the registration fails and nothing is stored. Else the account
/// is stored and its session issued.
pub fn finish_create_account(
    store: &mut CredentialStore,
    config: &Config,
    info: &RegisterRequest,
    dispatch: &VerificationDispatch,
    delivered: bool,
) -> (r: Result<String, ServiceError>)
    ensures
        dispatch.mail is Some && !delivered ==> final(store)@ == old(store)@ && text_outcome(r)
            == Err::<Seq<char>, ErrorView>(ErrorView::InternalServerError),
        !(dispatch.mail is Some && !delivered) ==> exists|
            password_hash: Option<Seq<char>>,
            now: int,
        | #[trigger]
            registered(
                old(store)@,
                final(store)@,
                text_outcome(r),
                config.jwt_secret@,
                info.username@,
                info.email@,
                info.password@,
                dispatch.token@,
                password_hash,
                now,
            ),
        unique_identities(old(store)@) ==> unique_identities(final(store)@),
{
    if dispatch.mail.is_some() && !delivered {
        return Err(ServiceError::InternalServerError);
    }
    handle_database_and_token_generation(store, config, info, dispatch.token.as_str())
}

} // verus!
