use auth_service::config::Config;
use auth_service::error::ServiceError;
use auth_service::login::{authenticate, login, login_at, LoginStep};
use auth_service::mail::Mail;
use auth_service::password::hash_password;
use auth_service::request::LoginRequest;
use auth_service::session::parse;
use auth_service::store::{CredentialStore, UserRecord};

const REFUSED: &str =
    "Invalid username or password. If you haven't verified your email, please do so.";

fn config() -> Config {
    Config {
        jwt_secret: "signing key".to_string(),
        verification_base_url: "https://svc.test".to_string(),
        reset_password_base_url: "https://svc.test/account".to_string(),
        email_verification_enabled: true,
    }
}

fn account(username: &str, email: &str, password: &str, verified: bool, has_2fa: bool) -> UserRecord {
    UserRecord {
        username: username.to_string(),
        email: email.to_string(),
        password_hash: hash_password(password).unwrap(),
        verification_token: "tok".to_string(),
        verified,
        verification_attempts: 0,
        token_expiry: 0,
        reset_password_token: None,
        reset_token_expiry: None,
        has_2fa,
        two_fa_code: None,
        two_fa_expiry: None,
        temp_2fa_code: None,
        temp_token: None,
        temp_token_expiry: None,
    }
}

fn store_with(records: Vec<UserRecord>) -> CredentialStore {
    let mut store = CredentialStore::new();
    for r in records {
        assert!(store.insert_record(r).is_ok());
    }
    store
}

fn attempt(username: &str, password: &str) -> LoginRequest {
    LoginRequest { username: username.to_string(), password: password.to_string() }
}

fn unix_time() -> i64 {
    std::time::SystemTime::now().duration_since(std::time::UNIX_EPOCH).unwrap().as_secs() as i64
}

#[test]
fn unknown_user_wrong_password_and_unverified_read_the_same() {
    let store = store_with(vec![
        account("alice", "a@x.com", "secret1", true, false),
        account("bob", "b@x.com", "secret2", false, false),
    ]);
    let refused = Err(ServiceError::BadRequest(REFUSED.to_string()));
    assert_eq!(login_at(&store, &config(), &attempt("nobody", "secret1"), 0), refused);
    assert_eq!(login_at(&store, &config(), &attempt("alice", "secret2"), 0), refused);
    assert_eq!(login_at(&store, &config(), &attempt("alice", ""), 0), refused);
    assert_eq!(login_at(&store, &config(), &attempt("bob", "secret2"), 0), refused);
    assert_eq!(login_at(&store, &config(), &attempt("bob", "wrong"), 0), refused);
}

#[test]
fn wrong_password_never_logs_in() {
    let store = store_with(vec![account("alice", "a@x.com", "secret1", true, false)]);
    for wrong in ["secret", "secret11", "Secret1", " secret1", "secret2"] {
        let r = authenticate(&store, &attempt("alice", wrong));
        assert_eq!(r, Err(ServiceError::BadRequest(REFUSED.to_string())));
    }
    assert_eq!(authenticate(&store, &attempt("alice", "secret1")), Ok(0));
}

#[test]
fn malformed_stored_hash_refuses_everyone() {
    let mut broken = account("alice", "a@x.com", "secret1", true, false);
    broken.password_hash = "secret1".to_string();
    let store = store_with(vec![broken]);
    let r = authenticate(&store, &attempt("alice", "secret1"));
    assert_eq!(r, Err(ServiceError::BadRequest(REFUSED.to_string())));
}

#[test]
fn authenticate_finds_the_account_by_name() {
    let store = store_with(vec![
        account("alice", "a@x.com", "secret1", true, false),
        account("bob", "b@x.com", "secret1", true, true),
    ]);
    assert_eq!(authenticate(&store, &attempt("bob", "secret1")), Ok(1));
}

#[test]
fn login_without_second_factor_gives_a_session_for_the_name() {
    let store = store_with(vec![account("alice", "a@x.com", "secret1", true, false)]);
    let now = unix_time();
    let r = login_at(&store, &config(), &attempt("alice", "secret1"), now).unwrap();
    let token = match r {
        LoginStep::Session(token) => token,
        LoginStep::Challenge(_) => panic!("a challenge for an account without second factor"),
    };
    let claims = parse("signing key", &token).unwrap();
    assert_eq!(claims.sub, "alice");
    assert!(!claims.has_2fa);
    assert_eq!(claims.exp as i64, now + 86_400);
}

#[test]
fn login_by_the_clock_gives_a_session_of_one_day() {
    let store = store_with(vec![account("alice", "a@x.com", "secret1", true, false)]);
    let before = unix_time();
    let r = login(&store, &config(), &attempt("alice", "secret1")).unwrap();
    let after = unix_time();
    let token = match r {
        LoginStep::Session(token) => token,
        LoginStep::Challenge(_) => panic!("a challenge for an account without second factor"),
    };
    let claims = parse("signing key", &token).unwrap();
    assert_eq!(claims.sub, "alice");
    assert!(!claims.has_2fa);
    assert!(before + 86_400 <= claims.exp as i64 && claims.exp as i64 <= after + 86_400);
}

#[test]
fn login_with_second_factor_gives_a_challenge_never_a_session() {
    let store = store_with(vec![account("alice", "a@x.com", "secret1", true, true)]);
    let before = store.clone();
    let r = login(&store, &config(), &attempt("alice", "secret1")).unwrap();
    let challenge = match r {
        LoginStep::Challenge(challenge) => challenge,
        LoginStep::Session(_) => panic!("a session without the second factor"),
    };
    assert_eq!(challenge.username, "alice");
    assert_eq!(challenge.code.len(), 6);
    assert!(challenge.code.chars().all(|c| c.is_ascii_alphanumeric()));
    assert_eq!(challenge.temp_token.len(), 36);
    assert_eq!(
        challenge.mail,
        Mail {
            to: "a@x.com".to_string(),
            subject: "Your 2FA code".to_string(),
            body: format!("Here is your 2FA code: {}", challenge.code),
        }
    );
    // nothing is stored before the message went out
    assert_eq!(store.get(0), before.get(0));
}

#[test]
fn login_with_second_factor_still_needs_the_password() {
    let store = store_with(vec![account("alice", "a@x.com", "secret1", true, true)]);
    let r = login(&store, &config(), &attempt("alice", "wrong"));
    assert_eq!(r, Err(ServiceError::BadRequest(REFUSED.to_string())));
}

#[test]
fn login_at_the_end_of_time_is_an_internal_error() {
    let store = store_with(vec![account("alice", "a@x.com", "secret1", true, false)]);
    let r = login_at(&store, &config(), &attempt("alice", "secret1"), i64::MAX);
    assert_eq!(r, Err(ServiceError::InternalServerError));
}
