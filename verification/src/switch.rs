//! Switching the second factor on and off: a signed-in caller asks, gets a
//! code by email, and confirms with name, code and handle.

use vstd::prelude::*;
use crate::authorization::{
    bearer_of, extract_user_email_from_token, header_view, session_user,
};
use crate::config::Config;
use crate::error::{text_outcome, unit_outcome, ErrorView, ServiceError};
use crate::mail::CodePurpose;
use crate::request::TwoFAVerificationRequest;
use crate::secret::{generate_2fa_code, generate_temp_token, is_handle, is_secret, CODE_LENGTH};
use crate::session::invalid_token;
use crate::store::{lookup, unique_identities, CredentialStore, KeyKind, UserView};
use crate::two_factor::{challenge_for, Challenge};

verus! {

/// Which way the second factor is switched.
#[derive(Debug, Clone, Copy)]
pub enum Switch {
    On,
    Off,
}

impl Switch {
    /// What the code of this switch is sent for.
    pub open spec fn purpose(self) -> CodePurpose {
        match self {
            Switch::On => CodePurpose::Activation,
            Switch::Off => CodePurpose::Deactivation,
        }
    }

    /// The failure of a confirmation that finds no account or nothing
    /// pending.
    pub open spec fn nothing_pending(self) -> ErrorView {
        match self {
            Switch::On => ErrorView::BadRequest("User not found or no pending 2FA activation"@),
            Switch::Off => ErrorView::BadRequest("User not found or no pending 2FA deactivation"@),
        }
    }

    /// The account after the switch.
    pub open spec fn applied(self, u: UserView) -> UserView {
        match self {
            Switch::On => u.with_2fa_on(),
            Switch::Off => u.with_2fa_off(),
        }
    }
}

/// The failure of a confirmation whose code or handle is not the one
/// stored.
pub open spec fn invalid_code_or_token() -> ErrorView {
    ErrorView::BadRequest("Invalid code or token"@)
}

/// What storing a requested switch does. Without delivery nothing is
/// stored and the flow fails. Else the account, if it is still there,
/// gets the code and the handle, and the caller gets the handle.
pub open spec fn switch_request_step(
    s: Seq<UserView>,
    username: Seq<char>,
    code: Seq<char>,
    temp_token: Seq<char>,
    delivered: bool,
) -> (Seq<UserView>, Result<Seq<char>, ErrorView>) {
    if !delivered {
        (s, Err(ErrorView::InternalServerError))
    } else {
        match lookup(s, KeyKind::Username, username) {
            Some(i) => (s.update(i, s[i].with_pending_switch(code, temp_token)), Ok(temp_token)),
            None => (s, Ok(temp_token)),
        }
    }
}

/// What confirming a switch does. The account is found by name; it must
/// have a code and a handle pending, and both must be the ones given.
/// Then the switch is made and both secrets are used up. A confirmation
/// that is turned down changes nothing.
pub open spec fn switch_step(
    s: Seq<UserView>,
    switch: Switch,
    username: Seq<char>,
    code: Seq<char>,
    token: Seq<char>,
) -> (Seq<UserView>, Result<(), ErrorView>) {
    match lookup(s, KeyKind::Username, username) {
        None => (s, Err(switch.nothing_pending())),
        Some(i) => match (s[i].temp_2fa_code, s[i].temp_token) {
            (Some(stored_code), Some(stored_token)) => if stored_code == code && stored_token
                == token {
                (s.update(i, switch.applied(s[i])), Ok(()))
            } else {
                (s, Err(invalid_code_or_token()))
            },
            _ => (s, Err(switch.nothing_pending())),
        },
    }
}

/// What a request to switch gives for a header, whatever the token in it
/// turns out to say: the header's own failure; or an invalid token; or,
/// for the account that some claims name, its failure or its challenge.
pub open spec fn switch_requested(
    s: Seq<UserView>,
    switch: Switch,
    header: Option<Seq<char>>,
    r: Result<Challenge, ServiceError>,
) -> bool {
    match bearer_of(header) {
        Err(e) => r matches Err(x) && x@ == e,
        Ok(_) => match r {
            Err(x) => x@ == invalid_token() || exists|sub: Seq<char>| #[trigger]
                session_user(s, sub) == Err::<(Seq<char>, Seq<char>), ErrorView>(x@),
            Ok(challenge) => {
                &&& is_secret(challenge.code@, CODE_LENGTH as nat)
                &&& is_handle(challenge.temp_token@)
                &&& session_user(s, challenge.username@) matches Ok((email, _))
                &&& challenge@ == challenge_for(
                    switch.purpose(),
                    challenge.username@,
                    email,
                    challenge.code@,
                    challenge.temp_token@,
                )
            },
        },
    }
}

/// First step of either switch: finds out who is calling, draws a code
/// and a handle, and writes the message that carries the code.
fn request_switch(
    store: &CredentialStore,
    config: &Config,
    authorization: Option<&str>,
    switch: Switch,
) -> (r: Result<Challenge, ServiceError>)
    ensures
        switch_requested(store@, switch, header_view(authorization), r),
{
    let (email, username) = match extract_user_email_from_token(store, config, authorization) {
        Ok(pair) => pair,
        Err(e) => {
            return Err(e);
        },
    };
    let code = generate_2fa_code();
    let temp_token = generate_temp_token();
    let purpose = match switch {
        Switch::On => CodePurpose::Activation,
        Switch::Off => CodePurpose::Deactivation,
    };
    proof {
        let sub = choose|sub: Seq<char>|
            Ok::<(Seq<char>, Seq<char>), ErrorView>((email@, username@)) == #[trigger] session_user(
                store@,
                sub,
            );
        assert(sub == username@);
    }
    Ok(Challenge::new(purpose, username, email.as_str(), code, temp_token))
}

/// First step of switching the second factor on. The caller is whoever
/// the session token in the header names. A code of six letters and
/// digits and a handle are drawn, and the message with the code is written
/// to the caller's address. Nothing is stored yet: the message is to be
/// delivered, then `finish_2fa_switch` stores the challenge.
pub fn activate_2fa(
    store: &CredentialStore,
    config: &Config,
    authorization: Option<&str>,
) -> (r: Result<Challenge, ServiceError>)
    ensures
        switch_requested(store@, Switch::On, header_view(authorization), r),
{
    request_switch(store, config, authorization, Switch::On)
}

/// First step of switching the second factor off; as `activate_2fa`, with
/// the message worded for switching off.
pub fn request_deactivate_2fa(
    store: &CredentialStore,
    config: &Config,
    authorization: Option<&str>,
) -> (r: Result<Challenge, ServiceError>)
    ensures
        switch_requested(store@, Switch::Off, header_view(authorization), r),
{
    request_switch(store, config, authorization, Switch::Off)
}

/// Second step of either switch request. Where the message was not
/// delivered, the flow fails and nothing is stored. Else code and handle
/// are stored on the account, without an expiry of their own, and the
/// handle is returned.
pub fn finish_2fa_switch(
    store: &mut CredentialStore,
    challenge: &Challenge,
    delivered: bool,
) -> (r: Result<String, ServiceError>)
    ensures
        (final(store)@, text_outcome(r)) == switch_request_step(
            old(store)@,
            challenge.username@,
            challenge.code@,
            challenge.temp_token@,
            delivered,
        ),
        unique_identities(old(store)@) ==> unique_identities(final(store)@),
{
    if !delivered {
        return Err(ServiceError::InternalServerError);
    }
    match store.find_by_username(challenge.username.as_str()) {
        Some(i) => {
            store.set_pending_switch(i, challenge.code.clone(), challenge.temp_token.clone());
        },
        None => {},
    }
    Ok(challenge.temp_token.clone())
}

/// Confirms a switch in either direction.
fn confirm_switch(
    store: &mut CredentialStore,
    switch: Switch,
    info: &TwoFAVerificationRequest,
) -> (r: Result<(), ServiceError>)
    ensures
        (final(store)@, unit_outcome(r)) == switch_step(
            old(store)@,
            switch,
            info.username@,
            info.code@,
            info.token@,
        ),
        unique_identities(old(store)@) ==> unique_identities(final(store)@),
{
    let i = match store.find_by_username(info.username.as_str()) {
        Some(i) => i,
        None => {
            return Err(nothing_pending(switch));
        },
    };
    let record = store.get(i);
    let matches = match (&record.temp_2fa_code, &record.temp_token) {
        (Some(stored_code), Some(stored_token)) => *stored_code == info.code && *stored_token
            == info.token,
        _ => {
            return Err(nothing_pending(switch));
        },
    };
    if !matches {
        return Err(ServiceError::bad_request("Invalid code or token"));
    }
    match switch {
        Switch::On => store.enable_2fa(i),
        Switch::Off => store.disable_2fa(i),
    }
    Ok(())
}

/// The failure of a confirmation that finds no account or nothing pending.
fn nothing_pending(switch: Switch) -> (e: ServiceError)
    ensures
        e@ == switch.nothing_pending(),
{
    match switch {
        Switch::On => ServiceError::bad_request("User not found or no pending 2FA activation"),
        Switch::Off => ServiceError::bad_request("User not found or no pending 2FA deactivation"),
    }
}

/// Confirms switching the second factor on. Name, code and handle must
/// all be those of one pending request. Then the account has a second
/// factor, and code and handle are used up. A confirmation that is turned
/// down changes nothing.
pub fn verify_2fa_activation(
    store: &mut CredentialStore,
    info: &TwoFAVerificationRequest,
) -> (r: Result<(), ServiceError>)
    ensures
        (final(store)@, unit_outcome(r)) == switch_step(
            old(store)@,
            Switch::On,
            info.username@,
            info.code@,
            info.token@,
        ),
        unique_identities(old(store)@) ==> unique_identities(final(store)@),
{
    confirm_switch(store, Switch::On, info)
}

/// Confirms switching the second factor off. Name, code and handle must
/// all be those of one pending request. Then the account has no second
/// factor, and the login code with its expiry is cleared along with the
/// pending code and handle. A confirmation that is turned down changes
/// nothing.
pub fn verify_2fa_deactivation(
    store: &mut CredentialStore,
    info: &TwoFAVerificationRequest,
) -> (r: Result<(), ServiceError>)
    ensures
        (final(store)@, unit_outcome(r)) == switch_step(
            old(store)@,
            Switch::Off,
            info.username@,
            info.code@,
            info.token@,
        ),
        unique_identities(old(store)@) ==> unique_identities(final(store)@),
{
    confirm_switch(store, Switch::Off, info)
}

} // verus!
