use auth_service::config::Config;
use auth_service::error::ServiceError;
use auth_service::mail::{CodePurpose, Mail};
use auth_service::request::TwoFAVerificationRequest;
use auth_service::session::issue_session;
use auth_service::store::{CredentialStore, UserRecord};
use auth_service::switch::{
    activate_2fa, finish_2fa_switch, request_deactivate_2fa, verify_2fa_activation,
    verify_2fa_deactivation,
};
use auth_service::two_factor::Challenge;

fn config() -> Config {
    Config {
        jwt_secret: "signing key".to_string(),
        verification_base_url: "https://svc.test".to_string(),
        reset_password_base_url: "https://svc.test/account".to_string(),
        email_verification_enabled: true,
    }
}

fn account(username: &str, email: &str) -> UserRecord {
    UserRecord {
        username: username.to_string(),
        email: email.to_string(),
        password_hash: "hash".to_string(),
        verification_token: String::new(),
        verified: true,
        verification_attempts: 0,
        token_expiry: 0,
        reset_password_token: None,
        reset_token_expiry: None,
        has_2fa: false,
        two_fa_code: None,
        two_fa_expiry: None,
        temp_2fa_code: None,
        temp_token: None,
        temp_token_expiry: None,
    }
}

fn pending(username: &str, email: &str, code: &str, handle: &str) -> UserRecord {
    UserRecord {
        temp_2fa_code: Some(code.to_string()),
        temp_token: Some(handle.to_string()),
        ..account(username, email)
    }
}

fn store_with(records: Vec<UserRecord>) -> CredentialStore {
    let mut store = CredentialStore::new();
    for r in records {
        assert!(store.insert_record(r).is_ok());
    }
    store
}

fn confirmation(username: &str, code: &str, token: &str) -> TwoFAVerificationRequest {
    TwoFAVerificationRequest {
        username: username.to_string(),
        code: code.to_string(),
        token: token.to_string(),
    }
}

fn unix_time() -> i64 {
    std::time::SystemTime::now().duration_since(std::time::UNIX_EPOCH).unwrap().as_secs() as i64
}

fn bearer_for(username: &str) -> String {
    format!("Bearer {}", issue_session("signing key", username, false, unix_time()).unwrap())
}

fn bad_request<T>(message: &str) -> Result<T, ServiceError> {
    Err(ServiceError::BadRequest(message.to_string()))
}

fn unauthorized<T>(message: &str) -> Result<T, ServiceError> {
    Err(ServiceError::Unauthorized(message.to_string()))
}

#[test]
fn activation_needs_a_header() {
    let store = store_with(vec![account("alice", "a@x.com")]);
    assert_eq!(activate_2fa(&store, &config(), None), unauthorized("No authorization header"));
    assert_eq!(
        request_deactivate_2fa(&store, &config(), None),
        unauthorized("No authorization header")
    );
}

#[test]
fn activation_needs_a_bearer_header() {
    let store = store_with(vec![account("alice", "a@x.com")]);
    for header in ["", "Bearer", "Basic abc", "Bearer a b", "bearer abc"] {
        assert_eq!(
            activate_2fa(&store, &config(), Some(header)),
            unauthorized("Invalid authorization header format")
        );
    }
}

#[test]
fn activation_needs_a_valid_session() {
    let store = store_with(vec![account("alice", "a@x.com")]);
    assert_eq!(
        activate_2fa(&store, &config(), Some("Bearer not.a.token")),
        unauthorized("Invalid token")
    );
    let foreign = format!(
        "Bearer {}",
        issue_session("another key", "alice", false, unix_time()).unwrap()
    );
    assert_eq!(activate_2fa(&store, &config(), Some(&foreign)), unauthorized("Invalid token"));
    let outdated = format!(
        "Bearer {}",
        issue_session("signing key", "alice", false, unix_time() - 2 * 86_400).unwrap()
    );
    assert_eq!(activate_2fa(&store, &config(), Some(&outdated)), unauthorized("Invalid token"));
}

#[test]
fn activation_for_a_vanished_account_fails() {
    let store = store_with(vec![account("alice", "a@x.com")]);
    let r = activate_2fa(&store, &config(), Some(&bearer_for("bob")));
    assert_eq!(r, bad_request("User not found"));
}

#[test]
fn activation_request_draws_a_challenge_for_the_caller() {
    let store = store_with(vec![account("alice", "a@x.com"), account("bob", "b@x.com")]);
    let c = activate_2fa(&store, &config(), Some(&bearer_for("bob"))).unwrap();
    assert_eq!(c.username, "bob");
    assert_eq!(c.code.len(), 6);
    assert!(c.code.chars().all(|ch| ch.is_ascii_alphanumeric()));
    assert_eq!(c.temp_token.len(), 36);
    assert_eq!(
        c.mail,
        Mail {
            to: "b@x.com".to_string(),
            subject: "Your 2FA activation code".to_string(),
            body: format!("Here is your 2FA activation code: {}", c.code),
        }
    );
    assert_eq!(store.get(1), &account("bob", "b@x.com"));
}

#[test]
fn deactivation_request_words_its_message_so() {
    let store = store_with(vec![account("alice", "a@x.com")]);
    let c = request_deactivate_2fa(&store, &config(), Some(&bearer_for("alice"))).unwrap();
    assert_eq!(c.username, "alice");
    assert_eq!(
        c.mail,
        Mail {
            to: "a@x.com".to_string(),
            subject: "Your 2FA deactivation code".to_string(),
            body: format!("Here is your 2FA deactivation code: {}", c.code),
        }
    );
}

#[test]
fn finishing_a_switch_request_stores_code_and_handle() {
    let mut store = store_with(vec![account("alice", "a@x.com"), account("bob", "b@x.com")]);
    let c = Challenge::new(
        CodePurpose::Activation,
        "bob".to_string(),
        "b@x.com",
        "ABC123".to_string(),
        "handle".to_string(),
    );
    assert_eq!(finish_2fa_switch(&mut store, &c, true), Ok("handle".to_string()));
    assert_eq!(store.get(0), &account("alice", "a@x.com"));
    assert_eq!(store.get(1), &pending("bob", "b@x.com", "ABC123", "handle"));
}

#[test]
fn undelivered_switch_request_stores_nothing() {
    let mut store = store_with(vec![account("alice", "a@x.com")]);
    let c = Challenge::new(
        CodePurpose::Activation,
        "alice".to_string(),
        "a@x.com",
        "ABC123".to_string(),
        "handle".to_string(),
    );
    assert_eq!(finish_2fa_switch(&mut store, &c, false), Err(ServiceError::InternalServerError));
    assert_eq!(store.get(0), &account("alice", "a@x.com"));
}

#[test]
fn switch_request_for_a_vanished_account_still_returns_the_handle() {
    let mut store = store_with(vec![account("alice", "a@x.com")]);
    let c = Challenge::new(
        CodePurpose::Deactivation,
        "bob".to_string(),
        "b@x.com",
        "ABC123".to_string(),
        "handle".to_string(),
    );
    assert_eq!(finish_2fa_switch(&mut store, &c, true), Ok("handle".to_string()));
    assert_eq!(store.get(0), &account("alice", "a@x.com"));
}

#[test]
fn confirmation_for_an_unknown_name_fails() {
    let mut store = store_with(vec![pending("alice", "a@x.com", "ABC123", "handle")]);
    assert_eq!(
        verify_2fa_activation(&mut store, &confirmation("bob", "ABC123", "handle")),
        bad_request("User not found or no pending 2FA activation")
    );
    assert_eq!(
        verify_2fa_deactivation(&mut store, &confirmation("bob", "ABC123", "handle")),
        bad_request("User not found or no pending 2FA deactivation")
    );
}

#[test]
fn confirmation_without_pending_request_fails() {
    let mut only_code = account("bob", "b@x.com");
    only_code.temp_2fa_code = Some("ABC123".to_string());
    let mut only_handle = account("carol", "c@x.com");
    only_handle.temp_token = Some("handle".to_string());
    let mut store = store_with(vec![account("alice", "a@x.com"), only_code, only_handle]);
    for name in ["alice", "bob", "carol"] {
        assert_eq!(
            verify_2fa_activation(&mut store, &confirmation(name, "ABC123", "handle")),
            bad_request("User not found or no pending 2FA activation")
        );
        assert_eq!(
            verify_2fa_deactivation(&mut store, &confirmation(name, "ABC123", "handle")),
            bad_request("User not found or no pending 2FA deactivation")
        );
    }
    assert!(!store.get(0).has_2fa);
}

#[test]
fn confirmation_needs_code_and_handle_both() {
    let mut store = store_with(vec![pending("alice", "a@x.com", "ABC123", "handle")]);
    for (code, token) in [("ABC124", "handle"), ("ABC123", "other"), ("", ""), ("handle", "ABC123")] {
        assert_eq!(
            verify_2fa_activation(&mut store, &confirmation("alice", code, token)),
            bad_request("Invalid code or token")
        );
        assert_eq!(
            verify_2fa_deactivation(&mut store, &confirmation("alice", code, token)),
            bad_request("Invalid code or token")
        );
        assert_eq!(store.get(0), &pending("alice", "a@x.com", "ABC123", "handle"));
    }
}

#[test]
fn confirmation_needs_the_secrets_of_the_named_account() {
    let mut store = store_with(vec![
        pending("alice", "a@x.com", "ABC123", "handle-a"),
        pending("bob", "b@x.com", "XYZ789", "handle-b"),
    ]);
    assert_eq!(
        verify_2fa_activation(&mut store, &confirmation("alice", "XYZ789", "handle-b")),
        bad_request("Invalid code or token")
    );
    assert!(!store.get(0).has_2fa);
    assert!(!store.get(1).has_2fa);
}

#[test]
fn confirmed_activation_switches_on_and_uses_up_the_secrets() {
    let mut store = store_with(vec![
        pending("alice", "a@x.com", "ABC123", "handle-a"),
        pending("bob", "b@x.com", "XYZ789", "handle-b"),
    ]);
    assert_eq!(
        verify_2fa_activation(&mut store, &confirmation("bob", "XYZ789", "handle-b")),
        Ok(())
    );
    assert_eq!(store.get(1), &UserRecord { has_2fa: true, ..account("bob", "b@x.com") });
    assert_eq!(store.get(0), &pending("alice", "a@x.com", "ABC123", "handle-a"));
    // the same confirmation does not work again, in either direction
    assert_eq!(
        verify_2fa_activation(&mut store, &confirmation("bob", "XYZ789", "handle-b")),
        bad_request("User not found or no pending 2FA activation")
    );
    assert_eq!(
        verify_2fa_deactivation(&mut store, &confirmation("bob", "XYZ789", "handle-b")),
        bad_request("User not found or no pending 2FA deactivation")
    );
    assert!(store.get(1).has_2fa);
}

#[test]
fn confirmed_deactivation_switches_off_and_clears_the_login_code() {
    let mut enrolled = pending("alice", "a@x.com", "ABC123", "handle");
    enrolled.has_2fa = true;
    enrolled.two_fa_code = Some("LOGIN1".to_string());
    enrolled.two_fa_expiry = Some(77);
    enrolled.temp_token_expiry = Some(99);
    let mut store = store_with(vec![enrolled]);
    assert_eq!(
        verify_2fa_deactivation(&mut store, &confirmation("alice", "ABC123", "handle")),
        Ok(())
    );
    assert_eq!(
        store.get(0),
        &UserRecord { temp_token_expiry: Some(99), ..account("alice", "a@x.com") }
    );
}

#[test]
fn activation_keeps_the_login_code() {
    let mut enrolled = pending("alice", "a@x.com", "ABC123", "handle");
    enrolled.two_fa_code = Some("LOGIN1".to_string());
    enrolled.two_fa_expiry = Some(77);
    let mut store = store_with(vec![enrolled]);
    assert_eq!(
        verify_2fa_activation(&mut store, &confirmation("alice", "ABC123", "handle")),
        Ok(())
    );
    assert_eq!(
        store.get(0),
        &UserRecord {
            has_2fa: true,
            two_fa_code: Some("LOGIN1".to_string()),
            two_fa_expiry: Some(77),
            ..account("alice", "a@x.com")
        }
    );
}
