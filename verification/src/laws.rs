//! What holds of the flows taken one by one and one after the other. Each
//! law is proved from the definitions that the flows' own contracts are
//! stated in.

use vstd::prelude::*;
use crate::clock::{expired, LOGIN_CODE_LIFETIME, ONE_DAY};
use crate::error::{ErrorView, ServiceError};
use crate::login::{authentication, logged_in, login_refused, LoginStep};
use crate::password::password_accepted;
use crate::recovery::{forgot_step, reset_step, reset_token_expired};
use crate::registration::registration_step;
use crate::session::{session_expiry, session_outcome, signed_token};
use crate::store::{
    first_match, lemma_lookup_after_update, lemma_lookup_found, lemma_lookup_missing,
    lemma_lookup_sound, lookup, unique_identities, KeyKind, UserView,
};
use crate::switch::{switch_request_step, switch_step, Switch};
use crate::two_factor::{
    code_expired, invalid_temp_token, login_challenge_step, login_code_verdict, verify_2fa_step,
};
use crate::verification::{
    already_verified, invalid_request, token_expired, too_many_attempts, verification_step,
    MAX_VERIFICATION_ATTEMPTS,
};

verus! {

/// Registration makes an account that still has to prove its address
/// exactly where it was given a token: such an account starts unverified,
/// without an attempt counted and without a second factor.
pub proof fn law_registration_starts_unverified(
    s: Seq<UserView>,
    secret: Seq<char>,
    username: Seq<char>,
    email: Seq<char>,
    password_hash: Option<Seq<char>>,
    verification_token: Seq<char>,
    now: int,
)
    ensures
        ({
            let after = registration_step(
                s,
                secret,
                username,
                email,
                password_hash,
                verification_token,
                now,
            ).0;
            after == s || {
                &&& after.len() == s.len() + 1
                &&& after.last().username == username
                &&& after.last().verified == (verification_token.len() == 0)
                &&& after.last().verification_attempts == 0
                &&& !after.last().has_2fa
                &&& forall|i: int| 0 <= i < s.len() ==> after[i] == s[i]
            }
        }),
{
}

/// An account that was registered without a token to prove can log in at
/// once with the password that was hashed for it.
pub proof fn law_registered_account_can_log_in(
    s: Seq<UserView>,
    secret: Seq<char>,
    username: Seq<char>,
    email: Seq<char>,
    password: Seq<char>,
    hash: Seq<char>,
    now: int,
)
    requires
        password_accepted(password, hash),
        registration_step(s, secret, username, email, Some(hash), Seq::empty(), now).0 != s,
    ensures
        authentication(
            registration_step(s, secret, username, email, Some(hash), Seq::empty(), now).0,
            username,
            password,
        ) == Ok::<int, ErrorView>(s.len() as int),
{
    let after = registration_step(s, secret, username, email, Some(hash), Seq::empty(), now).0;
    lemma_lookup_sound(s, KeyKind::Username, username);
    assert(first_match(after, KeyKind::Username, username, s.len() as int)) by {
        assert forall|j: int| 0 <= j < s.len() implies !(#[trigger] after[j]).has_key(
            KeyKind::Username,
            username,
        ) by {
            assert(after[j] == s[j]);
        }
    }
    lemma_lookup_found(after, KeyKind::Username, username, s.len() as int);
}

/// An account that was registered with a token to prove is verified by a
/// click with that token within the day, as long as no older account
/// holds the same token.
pub proof fn law_registered_account_can_verify(
    s: Seq<UserView>,
    secret: Seq<char>,
    username: Seq<char>,
    email: Seq<char>,
    hash: Seq<char>,
    token: Seq<char>,
    now: int,
    click: int,
)
    requires
        token.len() > 0,
        registration_step(s, secret, username, email, Some(hash), token, now).0 != s,
        lookup(s, KeyKind::VerificationToken, token) is None,
        click <= now + ONE_DAY,
    ensures
        ({
            let after = registration_step(s, secret, username, email, Some(hash), token, now).0;
            let (last, outcome) = verification_step(after, token, click);
            &&& outcome is Ok
            &&& last.len() == after.len()
            &&& last.last().username == username
            &&& last.last().verified
        }),
{
    let after = registration_step(s, secret, username, email, Some(hash), token, now).0;
    lemma_lookup_sound(s, KeyKind::VerificationToken, token);
    assert(first_match(after, KeyKind::VerificationToken, token, s.len() as int)) by {
        assert forall|j: int| 0 <= j < s.len() implies !(#[trigger] after[j]).has_key(
            KeyKind::VerificationToken,
            token,
        ) by {
            assert(after[j] == s[j]);
        }
    }
    lemma_lookup_found(after, KeyKind::VerificationToken, token, s.len() as int);
}

/// How a click on a verification link counts. A token that no account
/// holds is turned down and nothing changes. Of the account found: where
/// it is verified, or out of attempts, the click is turned down and the
/// counter stays; where the token has died, the click is turned down and
/// counted; else the click succeeds and is counted. No other account
/// changes.
pub proof fn law_verification_counting(s: Seq<UserView>, token: Seq<char>, now: int)
    ensures
        ({
            let (after, outcome) = verification_step(s, token, now);
            match lookup(s, KeyKind::VerificationToken, token) {
                None => after == s && outcome == Err::<(), ErrorView>(invalid_request()),
                Some(i) => {
                    &&& 0 <= i < s.len()
                    &&& after.len() == s.len()
                    &&& forall|j: int| 0 <= j < s.len() && j != i ==> after[j] == s[j]
                    &&& if s[i].verified {
                        outcome == Err::<(), ErrorView>(already_verified()) && after[i] == s[i]
                    } else if s[i].verification_attempts >= MAX_VERIFICATION_ATTEMPTS {
                        outcome == Err::<(), ErrorView>(too_many_attempts()) && after[i] == s[i]
                    } else if expired(now, s[i].token_expiry) {
                        &&& outcome == Err::<(), ErrorView>(token_expired())
                        &&& !after[i].verified
                        &&& after[i].verification_attempts == s[i].verification_attempts + 1
                    } else {
                        &&& outcome is Ok
                        &&& after[i].verified
                        &&& after[i].verification_attempts == s[i].verification_attempts + 1
                    }
                },
            }
        }),
{
    lemma_lookup_sound(s, KeyKind::VerificationToken, token);
}

/// A verification link works once. After a click that succeeded, a second
/// click with the same token, at any time, is turned down as already
/// verified and changes nothing: the account stays verified.
pub proof fn law_verification_once(s: Seq<UserView>, token: Seq<char>, first: int, second: int)
    requires
        verification_step(s, token, first).1 is Ok,
    ensures
        ({
            let after = verification_step(s, token, first).0;
            verification_step(after, token, second) == (
                after,
                Err::<(), ErrorView>(already_verified()),
            )
        }),
{
    lemma_lookup_sound(s, KeyKind::VerificationToken, token);
    let i = lookup(s, KeyKind::VerificationToken, token).unwrap();
    let after = verification_step(s, token, first).0;
    lemma_lookup_after_update(s, i, after[i], KeyKind::VerificationToken, token);
    assert(after.update(i, after[i]) =~= after);
}

/// A token that has used its five attempts is dead: the click is turned
/// down for too many attempts, however right the token and however far
/// off its expiry, and the counter does not move.
pub proof fn law_attempt_limit(s: Seq<UserView>, token: Seq<char>, now: int, i: int)
    requires
        lookup(s, KeyKind::VerificationToken, token) == Some(i),
        !s[i].verified,
        s[i].verification_attempts >= MAX_VERIFICATION_ATTEMPTS,
    ensures
        verification_step(s, token, now) == (s, Err::<(), ErrorView>(too_many_attempts())),
{
    lemma_lookup_sound(s, KeyKind::VerificationToken, token);
    assert(s.update(i, s[i]) =~= s);
}

/// Nobody logs in to an account whose address is not verified, whatever
/// the password; nor with a password that does not open the stored hash;
/// and every refusal reads the same.
pub proof fn law_login_needs_password_and_verification(
    s: Seq<UserView>,
    username: Seq<char>,
    password: Seq<char>,
)
    ensures
        (match authentication(s, username, password) {
            Ok(i) => {
                &&& lookup(s, KeyKind::Username, username) == Some(i)
                &&& 0 <= i < s.len()
                &&& s[i].username == username
                &&& s[i].verified
                &&& password_accepted(password, s[i].password_hash)
            },
            Err(e) => e == login_refused(),
        }),
{
    lemma_lookup_sound(s, KeyKind::Username, username);
}

/// What a login can end in. A session is only ever given to an account
/// without second factor; it is signed for the name that logged in, ends
/// one day after the login and does not carry the second-factor flag. An
/// account with a second factor gets a challenge or a failure, never a
/// session.
pub proof fn law_login_outcome(
    s: Seq<UserView>,
    secret: Seq<char>,
    username: Seq<char>,
    password: Seq<char>,
    now: int,
    r: Result<LoginStep, ServiceError>,
)
    requires
        logged_in(s, secret, username, password, now, r),
    ensures
        r matches Ok(LoginStep::Session(token)) ==> {
            &&& authentication(s, username, password) matches Ok(i)
            &&& !s[i].has_2fa
            &&& session_expiry(now) matches Some(exp)
            &&& exp == now + 86_400
            &&& signed_token(secret, username, exp, false) == Some(token@)
        },
        r matches Ok(LoginStep::Challenge(challenge)) ==> {
            &&& authentication(s, username, password) matches Ok(i)
            &&& s[i].has_2fa
            &&& challenge@.username == username
            &&& challenge@.mail.to == s[i].email
        },
        (authentication(s, username, password) matches Ok(i) && s[i].has_2fa) ==> !(r matches Ok(
            LoginStep::Session(_),
        )),
{
}

/// A login challenge that was stored can be answered: the code that was
/// sent, with the handle that was returned, within three minutes, ends in
/// a session where one can be issued; as long as no older account holds
/// the same handle.
pub proof fn law_challenge_can_be_answered(
    s: Seq<UserView>,
    secret: Seq<char>,
    username: Seq<char>,
    code: Seq<char>,
    temp_token: Seq<char>,
    now: int,
    answer: int,
    i: int,
)
    requires
        lookup(s, KeyKind::Username, username) == Some(i),
        login_challenge_step(s, username, code, temp_token, true, now).1 is Ok,
        forall|j: int| 0 <= j < i ==> (#[trigger] s[j]).temp_token != Some(temp_token),
        answer <= now + LOGIN_CODE_LIFETIME,
        session_outcome(secret, username, true, answer) is Ok,
    ensures
        ({
            let after = login_challenge_step(s, username, code, temp_token, true, now).0;
            let (last, outcome) = verify_2fa_step(after, secret, temp_token, code, answer);
            &&& outcome == session_outcome(secret, username, true, answer)
            &&& last == after.update(i, after[i].without_temp_token())
        }),
{
    let after = login_challenge_step(s, username, code, temp_token, true, now).0;
    lemma_lookup_sound(s, KeyKind::Username, username);
    assert(first_match(after, KeyKind::TempToken, temp_token, i)) by {
        assert forall|j: int| 0 <= j < i implies !(#[trigger] after[j]).has_key(
            KeyKind::TempToken,
            temp_token,
        ) by {
            assert(after[j] == s[j]);
        }
    }
    lemma_lookup_found(after, KeyKind::TempToken, temp_token, i);
}

/// The right answer to a login challenge, given in time, ends in a
/// session that carries the second factor, for the account that holds the
/// handle; and that uses up the handle.
pub proof fn law_right_answer_gets_session(
    s: Seq<UserView>,
    secret: Seq<char>,
    temp_token: Seq<char>,
    code: Seq<char>,
    now: int,
    i: int,
)
    requires
        lookup(s, KeyKind::TempToken, temp_token) == Some(i),
        login_code_verdict(s[i], code, now) is Ok,
        session_outcome(secret, s[i].username, true, now) is Ok,
    ensures
        ({
            let (after, outcome) = verify_2fa_step(s, secret, temp_token, code, now);
            &&& session_expiry(now) matches Some(exp)
            &&& outcome matches Ok(token)
            &&& signed_token(secret, s[i].username, exp, true) == Some(token)
            &&& after == s.update(i, s[i].without_temp_token())
            &&& after[i].temp_token is None
        }),
{
    lemma_lookup_sound(s, KeyKind::TempToken, temp_token);
}

/// An answer to a login challenge that is turned down changes nothing.
/// So there is no lockout: whatever a later answer would have got before
/// the wrong one, it gets after it.
pub proof fn law_wrong_answer_costs_nothing(
    s: Seq<UserView>,
    secret: Seq<char>,
    temp_token: Seq<char>,
    wrong_code: Seq<char>,
    first: int,
    code: Seq<char>,
    second: int,
)
    requires
        verify_2fa_step(s, secret, temp_token, wrong_code, first).1 is Err,
    ensures
        verify_2fa_step(s, secret, temp_token, wrong_code, first).0 == s,
        verify_2fa_step(
            verify_2fa_step(s, secret, temp_token, wrong_code, first).0,
            secret,
            temp_token,
            code,
            second,
        ) == verify_2fa_step(s, secret, temp_token, code, second),
{
}

/// The code of a login challenge is refused once the clock has passed its
/// expiry, even where it is the right one; and the refusal changes
/// nothing.
pub proof fn law_expired_code_is_refused(
    s: Seq<UserView>,
    secret: Seq<char>,
    temp_token: Seq<char>,
    now: int,
    i: int,
    code: Seq<char>,
    expiry: int,
)
    requires
        lookup(s, KeyKind::TempToken, temp_token) == Some(i),
        s[i].two_fa_code == Some(code),
        s[i].two_fa_expiry == Some(expiry),
        expired(now, expiry),
    ensures
        verify_2fa_step(s, secret, temp_token, code, now) == (
            s,
            Err::<Seq<char>, ErrorView>(code_expired()),
        ),
{
}

/// The handle of a login challenge works once. After an answer that
/// succeeded, the same handle is turned down whatever code comes with it,
/// as long as no other account holds the same handle.
pub proof fn law_temp_token_once(
    s: Seq<UserView>,
    secret: Seq<char>,
    temp_token: Seq<char>,
    code: Seq<char>,
    now: int,
    again: Seq<char>,
    later: int,
)
    requires
        verify_2fa_step(s, secret, temp_token, code, now).1 is Ok,
        forall|i: int, j: int|
            0 <= i < j < s.len() ==> !((#[trigger] s[i]).temp_token == Some(temp_token) && (
            #[trigger] s[j]).temp_token == Some(temp_token)),
    ensures
        ({
            let after = verify_2fa_step(s, secret, temp_token, code, now).0;
            verify_2fa_step(after, secret, temp_token, again, later) == (
                after,
                Err::<Seq<char>, ErrorView>(invalid_temp_token()),
            )
        }),
{
    lemma_lookup_sound(s, KeyKind::TempToken, temp_token);
    let i = lookup(s, KeyKind::TempToken, temp_token).unwrap();
    let after = verify_2fa_step(s, secret, temp_token, code, now).0;
    assert forall|j: int| 0 <= j < after.len() implies !(#[trigger] after[j]).has_key(
        KeyKind::TempToken,
        temp_token,
    ) by {
        if j < i {
            assert(!s[j].has_key(KeyKind::TempToken, temp_token));
        } else if j > i {
            assert(s[i].temp_token == Some(temp_token));
            assert(s[j].temp_token != Some(temp_token));
        }
    }
    lemma_lookup_missing(after, KeyKind::TempToken, temp_token);
}

/// A switch that was asked for can be confirmed: the code that was sent,
/// with the handle that was returned, under the account's name, makes the
/// switch.
pub proof fn law_requested_switch_can_be_confirmed(
    s: Seq<UserView>,
    switch: Switch,
    username: Seq<char>,
    code: Seq<char>,
    temp_token: Seq<char>,
    i: int,
)
    requires
        lookup(s, KeyKind::Username, username) == Some(i),
    ensures
        ({
            let (after, handle) = switch_request_step(s, username, code, temp_token, true);
            let (last, outcome) = switch_step(after, switch, username, code, temp_token);
            &&& handle == Ok::<Seq<char>, ErrorView>(temp_token)
            &&& outcome is Ok
            &&& last.len() == s.len()
            &&& last[i].has_2fa == (switch is On)
            &&& last[i].temp_2fa_code is None
            &&& last[i].temp_token is None
        }),
{
    let after = switch_request_step(s, username, code, temp_token, true).0;
    lemma_lookup_sound(s, KeyKind::Username, username);
    lemma_lookup_after_update(s, i, after[i], KeyKind::Username, username);
}

/// A confirmed switch sets the second factor as asked, for the account of
/// that name and for no other.
pub proof fn law_switch_takes_effect(
    s: Seq<UserView>,
    switch: Switch,
    username: Seq<char>,
    code: Seq<char>,
    token: Seq<char>,
)
    requires
        switch_step(s, switch, username, code, token).1 is Ok,
    ensures
        ({
            let after = switch_step(s, switch, username, code, token).0;
            &&& lookup(s, KeyKind::Username, username) matches Some(i)
            &&& after.len() == s.len()
            &&& after[i].has_2fa == (switch is On)
            &&& forall|j: int| 0 <= j < s.len() && j != i ==> after[j] == s[j]
        }),
{
    lemma_lookup_sound(s, KeyKind::Username, username);
}

/// The code and handle of a switch work once. After a confirmation that
/// succeeded, every further confirmation for the same account is turned
/// down, in either direction and whatever code and handle it brings.
pub proof fn law_switch_secrets_once(
    s: Seq<UserView>,
    switch: Switch,
    username: Seq<char>,
    code: Seq<char>,
    token: Seq<char>,
    next: Switch,
    again_code: Seq<char>,
    again_token: Seq<char>,
)
    requires
        switch_step(s, switch, username, code, token).1 is Ok,
    ensures
        ({
            let after = switch_step(s, switch, username, code, token).0;
            switch_step(after, next, username, again_code, again_token) == (
                after,
                Err::<(), ErrorView>(next.nothing_pending()),
            )
        }),
{
    lemma_lookup_sound(s, KeyKind::Username, username);
    let i = lookup(s, KeyKind::Username, username).unwrap();
    let after = switch_step(s, switch, username, code, token).0;
    lemma_lookup_after_update(s, i, after[i], KeyKind::Username, username);
}

/// The answer to a request for a reset link does not tell whether the
/// address is known: it is the same for every store.
pub proof fn law_reset_request_does_not_tell(
    known: Seq<UserView>,
    unknown: Seq<UserView>,
    email: Seq<char>,
    token: Seq<char>,
    delivered: bool,
    now: int,
)
    ensures
        forgot_step(known, email, token, delivered, now).1 == forgot_step(
            unknown,
            email,
            token,
            delivered,
            now,
        ).1,
        lookup(unknown, KeyKind::Email, email) is None ==> forgot_step(
            unknown,
            email,
            token,
            delivered,
            now,
        ).0 == unknown,
{
}

/// A reset link works: after the token was stored for a known address, a
/// reset with that token within the day, and a hash of the new password,
/// puts the hash in place.
pub proof fn law_reset_link_works(
    s: Seq<UserView>,
    email: Seq<char>,
    token: Seq<char>,
    hash: Seq<char>,
    now: int,
    reset: int,
    i: int,
)
    requires
        lookup(s, KeyKind::Email, email) == Some(i),
        forgot_step(s, email, token, true, now).1 is Ok,
        reset <= now + ONE_DAY,
    ensures
        ({
            let after = forgot_step(s, email, token, true, now).0;
            let (last, outcome) = reset_step(after, email, token, Some(hash), reset);
            &&& outcome is Ok
            &&& last.len() == s.len()
            &&& last[i].password_hash == hash
            &&& last[i].reset_password_token is None
            &&& last[i].reset_token_expiry is None
        }),
{
    let after = forgot_step(s, email, token, true, now).0;
    lemma_lookup_sound(s, KeyKind::Email, email);
    lemma_lookup_after_update(s, i, after[i], KeyKind::Email, email);
}

/// The token of a password reset is refused once the clock has passed its
/// expiry, even where it is the right one; and the refusal changes
/// nothing.
pub proof fn law_expired_reset_token_is_refused(
    s: Seq<UserView>,
    email: Seq<char>,
    new_hash: Option<Seq<char>>,
    now: int,
    i: int,
    token: Seq<char>,
    expiry: int,
)
    requires
        lookup(s, KeyKind::Email, email) == Some(i),
        s[i].reset_password_token == Some(token),
        s[i].reset_token_expiry == Some(expiry),
        expired(now, expiry),
    ensures
        reset_step(s, email, token, new_hash, now) == (
            s,
            Err::<(), ErrorView>(reset_token_expired()),
        ),
{
}

/// A reset token works once. After a reset that succeeded, every further
/// reset for the same address is turned down, whatever token it brings.
pub proof fn law_reset_token_once(
    s: Seq<UserView>,
    email: Seq<char>,
    token: Seq<char>,
    new_hash: Option<Seq<char>>,
    now: int,
    again: Seq<char>,
    other_hash: Option<Seq<char>>,
    later: int,
)
    requires
        reset_step(s, email, token, new_hash, now).1 is Ok,
    ensures
        ({
            let after = reset_step(s, email, token, new_hash, now).0;
            let (last, outcome) = reset_step(after, email, again, other_hash, later);
            last == after && outcome is Err
        }),
{
    lemma_lookup_sound(s, KeyKind::Email, email);
    let i = lookup(s, KeyKind::Email, email).unwrap();
    let after = reset_step(s, email, token, new_hash, now).0;
    lemma_lookup_after_update(s, i, after[i], KeyKind::Email, email);
}

/// After a reset, the account opens for the new password, where holding
/// the old one let nobody in who did not know it: login goes by the hash
/// in place, and that is the new one.
pub proof fn law_new_password_logs_in(
    s: Seq<UserView>,
    email: Seq<char>,
    token: Seq<char>,
    new_password: Seq<char>,
    hash: Seq<char>,
    now: int,
    i: int,
)
    requires
        unique_identities(s),
        reset_step(s, email, token, Some(hash), now).1 is Ok,
        lookup(s, KeyKind::Email, email) == Some(i),
        s[i].verified,
        password_accepted(new_password, hash),
    ensures
        authentication(
            reset_step(s, email, token, Some(hash), now).0,
            s[i].username,
            new_password,
        ) == Ok::<int, ErrorView>(i),
{
    let after = reset_step(s, email, token, Some(hash), now).0;
    lemma_lookup_sound(s, KeyKind::Email, email);
    assert(first_match(after, KeyKind::Username, s[i].username, i)) by {
        assert forall|j: int| 0 <= j < i implies !(#[trigger] after[j]).has_key(
            KeyKind::Username,
            s[i].username,
        ) by {
            assert(after[j] == s[j]);
            assert(s[j].username != s[i].username);
        }
    }
    lemma_lookup_found(after, KeyKind::Username, s[i].username, i);
}

} // verus!
