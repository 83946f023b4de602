use auth_service::config::Config;
use auth_service::mail::CodePurpose;
use auth_service::recovery::{finish_forgot_password_at, reset_password_at, ResetDispatch};
use auth_service::mail::Mail;
use auth_service::registration::store_account;
use auth_service::request::{
    RegisterRequest, ResetPasswordRequest, TwoFAVerificationRequest, Verify2FARequest, VerifyQuery,
};
use auth_service::store::{CredentialStore, UserRecord};
use auth_service::switch::{finish_2fa_switch, verify_2fa_activation, verify_2fa_deactivation};
use auth_service::two_factor::{finish_handle_2fa_at, verify_2fa_at, Challenge};
use auth_service::verification::handle_verification_link_at;

fn config() -> Config {
    Config {
        jwt_secret: "signing key".to_string(),
        verification_base_url: "https://svc.test".to_string(),
        reset_password_base_url: "https://svc.test/account".to_string(),
        email_verification_enabled: true,
    }
}

fn unverified(username: &str, email: &str, token: &str) -> UserRecord {
    UserRecord {
        username: username.to_string(),
        email: email.to_string(),
        password_hash: "hash".to_string(),
        verification_token: token.to_string(),
        verified: false,
        verification_attempts: 2,
        token_expiry: 1_000,
        reset_password_token: None,
        reset_token_expiry: None,
        has_2fa: false,
        two_fa_code: None,
        two_fa_expiry: None,
        temp_2fa_code: None,
        temp_token: None,
        temp_token_expiry: None,
    }
}

fn challenge(purpose: CodePurpose, username: &str, code: &str, handle: &str) -> Challenge {
    Challenge::new(purpose, username.to_string(), "a@x.com", code.to_string(), handle.to_string())
}

fn reset_dispatch(email: &str, token: &str) -> ResetDispatch {
    ResetDispatch {
        email: email.to_string(),
        token: token.to_string(),
        mail: Mail::reset("https://svc.test/account", email, token),
    }
}

/// Runs every flow that writes, except a click with the account's own token.
fn run_the_other_flows(store: &mut CredentialStore) {
    let cfg = config();
    let other = RegisterRequest {
        username: "bob".to_string(),
        email: "b@x.com".to_string(),
        password: "secret2".to_string(),
    };
    assert!(store_account(store, &cfg, &other, "tok-b", Some("H".to_string()), 100).is_ok());
    let click = VerifyQuery { token: "tok-b".to_string() };
    assert!(handle_verification_link_at(store, &click, 100).is_ok());
    let wrong_click = VerifyQuery { token: "nobody's".to_string() };
    assert!(handle_verification_link_at(store, &wrong_click, 100).is_err());

    let login = challenge(CodePurpose::Login, "alice", "LOGIN1", "handle-1");
    assert!(finish_handle_2fa_at(store, &login, true, 100).is_ok());
    let answer = Verify2FARequest { temp_token: "handle-1".to_string(), code: "LOGIN1".to_string() };
    assert!(verify_2fa_at(store, &cfg, &answer, 100).is_ok());

    let on = challenge(CodePurpose::Activation, "alice", "SWITCH", "handle-2");
    assert!(finish_2fa_switch(store, &on, true).is_ok());
    let confirm = TwoFAVerificationRequest {
        username: "alice".to_string(),
        code: "SWITCH".to_string(),
        token: "handle-2".to_string(),
    };
    assert!(verify_2fa_activation(store, &confirm).is_ok());
    let off = challenge(CodePurpose::Deactivation, "alice", "SWITCH", "handle-3");
    assert!(finish_2fa_switch(store, &off, true).is_ok());
    let confirm = TwoFAVerificationRequest { token: "handle-3".to_string(), ..confirm };
    assert!(verify_2fa_deactivation(store, &confirm).is_ok());

    assert!(finish_forgot_password_at(store, &reset_dispatch("a@x.com", "reset"), true, 100).is_ok());
    let reset = ResetPasswordRequest {
        email: "a@x.com".to_string(),
        token: "reset".to_string(),
        new_password: "secret3".to_string(),
    };
    assert!(reset_password_at(store, &reset, Some("new hash".to_string()), 100).is_ok());
}

#[test]
fn no_other_flow_verifies_an_account() {
    let mut store = CredentialStore::new();
    assert!(store.insert_record(unverified("alice", "a@x.com", "tok-a")).is_ok());
    run_the_other_flows(&mut store);
    assert_eq!(store.len(), 2);
    assert!(!store.get(0).verified);
    assert_eq!(store.get(0).verification_attempts, 2);
    assert_eq!(store.get(0).verification_token, "tok-a");
    assert_eq!(store.get(0).token_expiry, 1_000);
}

#[test]
fn identities_stay_as_registered() {
    let mut store = CredentialStore::new();
    assert!(store.insert_record(unverified("alice", "a@x.com", "tok-a")).is_ok());
    run_the_other_flows(&mut store);
    assert_eq!(store.get(0).username, "alice");
    assert_eq!(store.get(0).email, "a@x.com");
    assert_eq!(store.get(1).username, "bob");
    assert_eq!(store.get(1).email, "b@x.com");
}

#[test]
fn the_password_changes_by_reset_only() {
    let mut store = CredentialStore::new();
    assert!(store.insert_record(unverified("alice", "a@x.com", "tok-a")).is_ok());
    let cfg = config();
    let login = challenge(CodePurpose::Login, "alice", "LOGIN1", "handle-1");
    assert!(finish_handle_2fa_at(&mut store, &login, true, 100).is_ok());
    let answer = Verify2FARequest { temp_token: "handle-1".to_string(), code: "LOGIN1".to_string() };
    assert!(verify_2fa_at(&mut store, &cfg, &answer, 100).is_ok());
    let click = VerifyQuery { token: "tok-a".to_string() };
    assert!(handle_verification_link_at(&mut store, &click, 100).is_ok());
    assert!(finish_forgot_password_at(&mut store, &reset_dispatch("a@x.com", "reset"), true, 100).is_ok());
    assert_eq!(store.get(0).password_hash, "hash");
    let wrong = ResetPasswordRequest {
        email: "a@x.com".to_string(),
        token: "guess".to_string(),
        new_password: "secret3".to_string(),
    };
    assert!(reset_password_at(&mut store, &wrong, Some("new hash".to_string()), 100).is_err());
    assert_eq!(store.get(0).password_hash, "hash");
    let right = ResetPasswordRequest { token: "reset".to_string(), ..wrong };
    assert!(reset_password_at(&mut store, &right, Some("new hash".to_string()), 100).is_ok());
    assert_eq!(store.get(0).password_hash, "new hash");
}

#[test]
fn the_second_factor_changes_by_confirmed_switch_only() {
    let mut store = CredentialStore::new();
    assert!(store.insert_record(unverified("alice", "a@x.com", "tok-a")).is_ok());
    let cfg = config();
    let login = challenge(CodePurpose::Login, "alice", "LOGIN1", "handle-1");
    assert!(finish_handle_2fa_at(&mut store, &login, true, 100).is_ok());
    let answer = Verify2FARequest { temp_token: "handle-1".to_string(), code: "LOGIN1".to_string() };
    assert!(verify_2fa_at(&mut store, &cfg, &answer, 100).is_ok());
    assert!(!store.get(0).has_2fa);
    let on = challenge(CodePurpose::Activation, "alice", "SWITCH", "handle-2");
    assert!(finish_2fa_switch(&mut store, &on, true).is_ok());
    assert!(!store.get(0).has_2fa);
    let guess = TwoFAVerificationRequest {
        username: "alice".to_string(),
        code: "GUESS1".to_string(),
        token: "handle-2".to_string(),
    };
    assert!(verify_2fa_activation(&mut store, &guess).is_err());
    assert!(!store.get(0).has_2fa);
    let confirm = TwoFAVerificationRequest { code: "SWITCH".to_string(), ..guess };
    assert!(verify_2fa_activation(&mut store, &confirm).is_ok());
    assert!(store.get(0).has_2fa);
}

#[test]
fn the_attempt_counter_never_goes_down_and_stops_at_five() {
    let mut store = CredentialStore::new();
    assert!(store.insert_record(unverified("alice", "a@x.com", "tok-a")).is_ok());
    let click = VerifyQuery { token: "tok-a".to_string() };
    let mut last = store.get(0).verification_attempts;
    for now in [2_000, 2_000, 500, 2_000, 2_000, 500, 2_000] {
        let _ = handle_verification_link_at(&mut store, &click, now);
        let attempts = store.get(0).verification_attempts;
        assert!(attempts >= last);
        assert!(attempts <= 5);
        last = attempts;
    }
    // two expired clicks, then one in time
    assert_eq!(last, 5);
    assert!(store.get(0).verified);
}

#[test]
fn a_shared_handle_reaches_the_next_account_once_the_first_used_it() {
    let cfg = config();
    let mut store = CredentialStore::new();
    let mut a = unverified("alice", "a@x.com", "tok-a");
    a.two_fa_code = Some("CODE-A".to_string());
    a.two_fa_expiry = Some(1_000);
    a.temp_token = Some("shared".to_string());
    let mut b = unverified("bob", "b@x.com", "tok-b");
    b.two_fa_code = Some("CODE-B".to_string());
    b.two_fa_expiry = Some(1_000);
    b.temp_token = Some("shared".to_string());
    assert!(store.insert_record(a).is_ok());
    assert!(store.insert_record(b).is_ok());
    let first = Verify2FARequest { temp_token: "shared".to_string(), code: "CODE-A".to_string() };
    assert!(verify_2fa_at(&mut store, &cfg, &first, 100).is_ok());
    assert_eq!(store.get(0).temp_token, None);
    assert_eq!(store.get(1).temp_token, Some("shared".to_string()));
    // the first account's code is of no use with the handle any more
    assert!(verify_2fa_at(&mut store, &cfg, &first, 100).is_err());
    assert_eq!(store.get(1).temp_token, Some("shared".to_string()));
}
