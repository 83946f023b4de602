//! Everything that can change the store, as one type of events, and what
//! holds of every one of them.

use vstd::prelude::*;
use crate::clock::expired;
use crate::recovery::{forgot_step, reset_step};
use crate::registration::registration_step;
use crate::store::{first_match, lemma_lookup_sound, lookup, unique_identities, KeyKind, UserView};
use crate::switch::{switch_request_step, switch_step, Switch};
use crate::two_factor::{login_challenge_step, verify_2fa_step};
use crate::verification::{verification_step, MAX_VERIFICATION_ATTEMPTS};

verus! {

/// Everything that can change the store: one case for each flow that
/// writes, with what the flow was given and what its collaborators gave.
pub enum Event {
    Registration {
        secret: Seq<char>,
        username: Seq<char>,
        email: Seq<char>,
        password_hash: Option<Seq<char>>,
        verification_token: Seq<char>,
        now: int,
    },
    VerificationClick { token: Seq<char>, now: int },
    LoginChallengeStored {
        username: Seq<char>,
        code: Seq<char>,
        temp_token: Seq<char>,
        delivered: bool,
        now: int,
    },
    LoginChallengeAnswered { secret: Seq<char>, temp_token: Seq<char>, code: Seq<char>, now: int },
    SwitchRequested { username: Seq<char>, code: Seq<char>, temp_token: Seq<char>, delivered: bool },
    SwitchConfirmed { switch: Switch, username: Seq<char>, code: Seq<char>, token: Seq<char> },
    ResetRequested { email: Seq<char>, token: Seq<char>, delivered: bool, now: int },
    PasswordReset { email: Seq<char>, token: Seq<char>, new_hash: Option<Seq<char>>, now: int },
}

/// The store after an event.
pub open spec fn apply(s: Seq<UserView>, event: Event) -> Seq<UserView> {
    match event {
        Event::Registration { secret, username, email, password_hash, verification_token, now } => {
            registration_step(s, secret, username, email, password_hash, verification_token, now).0
        },
        Event::VerificationClick { token, now } => verification_step(s, token, now).0,
        Event::LoginChallengeStored { username, code, temp_token, delivered, now } => {
            login_challenge_step(s, username, code, temp_token, delivered, now).0
        },
        Event::LoginChallengeAnswered { secret, temp_token, code, now } => {
            verify_2fa_step(s, secret, temp_token, code, now).0
        },
        Event::SwitchRequested { username, code, temp_token, delivered } => {
            switch_request_step(s, username, code, temp_token, delivered).0
        },
        Event::SwitchConfirmed { switch, username, code, token } => {
            switch_step(s, switch, username, code, token).0
        },
        Event::ResetRequested { email, token, delivered, now } => {
            forgot_step(s, email, token, delivered, now).0
        },
        Event::PasswordReset { email, token, new_hash, now } => {
            reset_step(s, email, token, new_hash, now).0
        },
    }
}

/// No event removes an account or moves it, and none changes a username
/// or an email address.
pub proof fn law_accounts_stay(s: Seq<UserView>, event: Event, i: int)
    requires
        0 <= i < s.len(),
    ensures
        i < apply(s, event).len(),
        apply(s, event)[i].username == s[i].username,
        apply(s, event)[i].email == s[i].email,
{
    lemma_all_lookups_sound(s);
}

/// No event makes two accounts share a username or an email address.
pub proof fn law_identities_stay_unique(s: Seq<UserView>, event: Event)
    requires
        unique_identities(s),
    ensures
        unique_identities(apply(s, event)),
{
    let t = apply(s, event);
    lemma_all_lookups_sound(s);
    assert forall|i: int, j: int| 0 <= i < j < t.len() implies (#[trigger] t[i]).username != (
    #[trigger] t[j]).username && t[i].email != t[j].email by {
        if j < s.len() {
            law_accounts_stay(s, event, i);
            law_accounts_stay(s, event, j);
            assert(s[i].username != s[j].username && s[i].email != s[j].email);
        } else {
            assert(event is Registration);
            assert(t[i] == s[i]);
            assert(!s[i].has_key(KeyKind::Username, t[j].username));
            assert(!s[i].has_key(KeyKind::Email, t[j].email));
        }
    }
}

/// Every lookup in `s` answers soundly.
proof fn lemma_all_lookups_sound(s: Seq<UserView>)
    ensures
        forall|kind: KeyKind, value: Seq<char>|
            match #[trigger] lookup(s, kind, value) {
                Some(i) => first_match(s, kind, value, i),
                None => forall|j: int| 0 <= j < s.len() ==> !(#[trigger] s[j]).has_key(kind, value),
            },
{
    assert forall|kind: KeyKind, value: Seq<char>|
        match #[trigger] lookup(s, kind, value) {
            Some(i) => first_match(s, kind, value, i),
            None => forall|j: int| 0 <= j < s.len() ==> !(#[trigger] s[j]).has_key(kind, value),
        } by {
        lemma_lookup_sound(s, kind, value);
    }
}

/// An account that is not verified stays so under every event but one: a
/// click on a verification link that succeeds, with the account's own
/// token, while the token is alive and has attempts left.
pub proof fn law_unverified_until_verified(s: Seq<UserView>, event: Event, i: int)
    requires
        0 <= i < s.len(),
        !s[i].verified,
    ensures
        i < apply(s, event).len(),
        apply(s, event)[i].verified ==> {
            &&& event matches Event::VerificationClick { token, now }
            &&& verification_step(s, token, now).1 is Ok
            &&& lookup(s, KeyKind::VerificationToken, token) == Some(i)
            &&& s[i].verification_token == token
            &&& !expired(now, s[i].token_expiry)
            &&& s[i].verification_attempts < MAX_VERIFICATION_ATTEMPTS
        },
{
    lemma_all_lookups_sound(s);
}

/// The attempt counter of an account never goes down, and a counter
/// within the limit stays within it.
pub proof fn law_attempts_monotonic_and_capped(s: Seq<UserView>, event: Event, i: int)
    requires
        0 <= i < s.len(),
    ensures
        i < apply(s, event).len(),
        apply(s, event)[i].verification_attempts >= s[i].verification_attempts,
        s[i].verification_attempts <= MAX_VERIFICATION_ATTEMPTS ==> apply(
            s,
            event,
        )[i].verification_attempts <= MAX_VERIFICATION_ATTEMPTS,
{
    lemma_all_lookups_sound(s);
}

/// A password changes in one way only: by a reset for the account's own
/// address that brings the token stored for it, in time, and a hash of the
/// new password. Every other event leaves every password as it is.
pub proof fn law_password_changes_by_reset_only(s: Seq<UserView>, event: Event, i: int)
    requires
        0 <= i < s.len(),
    ensures
        i < apply(s, event).len(),
        apply(s, event)[i].password_hash != s[i].password_hash ==> {
            &&& event matches Event::PasswordReset { email, token, new_hash, now }
            &&& lookup(s, KeyKind::Email, email) == Some(i)
            &&& s[i].email == email
            &&& s[i].reset_password_token == Some(token)
            &&& s[i].reset_token_expiry matches Some(expiry)
            &&& !expired(now, expiry)
            &&& new_hash == Some(apply(s, event)[i].password_hash)
        },
{
    lemma_all_lookups_sound(s);
}

/// The second factor of an account changes in one way only: by a
/// confirmation for the account's own name that brings the code and the
/// handle stored for it. Every other event leaves it as it is.
pub proof fn law_second_factor_changes_by_switch_only(s: Seq<UserView>, event: Event, i: int)
    requires
        0 <= i < s.len(),
    ensures
        i < apply(s, event).len(),
        apply(s, event)[i].has_2fa != s[i].has_2fa ==> {
            &&& event matches Event::SwitchConfirmed { switch, username, code, token }
            &&& lookup(s, KeyKind::Username, username) == Some(i)
            &&& s[i].username == username
            &&& s[i].temp_2fa_code == Some(code)
            &&& s[i].temp_token == Some(token)
            &&& apply(s, event)[i].has_2fa == (switch is On)
        },
{
    lemma_all_lookups_sound(s);
}

} // verus!
