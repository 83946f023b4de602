use auth_service::clock::{
    expiry_after, is_expired, LOGIN_CODE_LIFETIME, ONE_DAY, TEMP_TOKEN_LIFETIME,
};
use auth_service::password::{hash_password, verify_password};
use auth_service::secret::{
    generate, generate_2fa_code, generate_temp_token, generate_token, CODE_LENGTH, TOKEN_LENGTH,
};

#[test]
fn generate_gives_exactly_the_length_asked_for() {
    for length in [0usize, 1, 6, 30, 257] {
        let s = generate(length);
        assert_eq!(s.chars().count(), length);
        assert_eq!(s.len(), length);
        assert!(s.chars().all(|c| c.is_ascii_alphanumeric()));
    }
}

#[test]
fn generate_uses_letters_of_both_cases_and_digits() {
    let s = generate(4_000);
    assert!(s.chars().any(|c| c.is_ascii_lowercase()));
    assert!(s.chars().any(|c| c.is_ascii_uppercase()));
    assert!(s.chars().any(|c| c.is_ascii_digit()));
}

#[test]
fn generated_secrets_differ() {
    assert_ne!(generate(30), generate(30));
    assert_ne!(generate_token(), generate_token());
    assert_ne!(generate_temp_token(), generate_temp_token());
}

#[test]
fn codes_have_six_characters_and_tokens_thirty() {
    assert_eq!(CODE_LENGTH, 6);
    assert_eq!(TOKEN_LENGTH, 30);
    let code = generate_2fa_code();
    assert_eq!(code.len(), 6);
    assert!(code.chars().all(|c| c.is_ascii_alphanumeric()));
    let token = generate_token();
    assert_eq!(token.len(), 30);
    assert!(token.chars().all(|c| c.is_ascii_alphanumeric()));
}

#[test]
fn temp_token_has_the_shape_of_a_uuid() {
    for _ in 0..50 {
        let t = generate_temp_token();
        let chars: Vec<char> = t.chars().collect();
        assert_eq!(chars.len(), 36);
        for (i, c) in chars.iter().enumerate() {
            if i == 8 || i == 13 || i == 18 || i == 23 {
                assert_eq!(*c, '-');
            } else {
                assert!(c.is_ascii_digit() || ('a'..='f').contains(c));
            }
        }
    }
}

#[test]
fn lifetimes_are_a_day_three_minutes_and_ten() {
    assert_eq!(ONE_DAY, 24 * 60 * 60);
    assert_eq!(LOGIN_CODE_LIFETIME, 3 * 60);
    assert_eq!(TEMP_TOKEN_LIFETIME, 10 * 60);
}

#[test]
fn expiry_after_adds_or_gives_up() {
    assert_eq!(expiry_after(1_000, ONE_DAY), Some(87_400));
    assert_eq!(expiry_after(-5, 5), Some(0));
    assert_eq!(expiry_after(i64::MAX - 180, LOGIN_CODE_LIFETIME), Some(i64::MAX));
    assert_eq!(expiry_after(i64::MAX - 179, LOGIN_CODE_LIFETIME), None);
    assert_eq!(expiry_after(i64::MIN, -1), None);
}

#[test]
fn a_secret_holds_through_its_expiry() {
    assert!(!is_expired(99, 100));
    assert!(!is_expired(100, 100));
    assert!(is_expired(101, 100));
    assert!(is_expired(0, -1));
}

#[test]
fn a_hash_opens_for_its_password_only() {
    let hash = hash_password("secret1").unwrap();
    assert_ne!(hash, "secret1");
    assert!(verify_password("secret1", &hash));
    assert!(!verify_password("secret2", &hash));
    assert!(!verify_password("", &hash));
    assert!(!verify_password(&hash, &hash));
}

#[test]
fn hashes_of_one_password_differ_and_both_open() {
    let a = hash_password("secret1").unwrap();
    let b = hash_password("secret1").unwrap();
    assert_ne!(a, b);
    assert!(verify_password("secret1", &a));
    assert!(verify_password("secret1", &b));
}

#[test]
fn unusual_passwords_open_their_hashes() {
    for password in ["", "pässwörd", "with\0nul"] {
        let hash = hash_password(password).unwrap();
        assert!(verify_password(password, &hash));
    }
    let long = "x".repeat(100);
    let hash = hash_password(&long).unwrap();
    assert!(verify_password(&long, &hash));
}

#[test]
fn a_known_hash_is_checked_as_written() {
    let hash = "$2y$05$bvIG6Nmid91Mu9RcmmWZfO5HJIMCT8riNW0hEp8f6/FuA2/mHZFpe";
    assert!(verify_password("password", hash));
    assert!(!verify_password("Password", hash));
}

#[test]
fn a_text_that_is_no_hash_opens_for_nobody() {
    assert!(!verify_password("secret1", ""));
    assert!(!verify_password("secret1", "secret1"));
    assert!(!verify_password("secret1", "$2b$12$tooshort"));
}
