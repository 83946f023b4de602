use auth_service::config::{flag_enabled, Config};
use auth_service::error::ServiceError;
use auth_service::mail::{CodePurpose, Mail};

#[test]
fn status_codes_follow_the_kind() {
    assert_eq!(ServiceError::InternalServerError.status_code(), 500);
    assert_eq!(ServiceError::BadRequest("x".to_string()).status_code(), 400);
    assert_eq!(ServiceError::Unauthorized("x".to_string()).status_code(), 401);
}

#[test]
fn body_is_the_bare_message() {
    assert_eq!(ServiceError::InternalServerError.body(), "Internal Server Error");
    assert_eq!(ServiceError::BadRequest("Invalid request".to_string()).body(), "Invalid request");
    assert_eq!(ServiceError::Unauthorized("Invalid token".to_string()).body(), "Invalid token");
    assert_eq!(ServiceError::BadRequest(String::new()).body(), "");
}

#[test]
fn message_names_the_kind_first() {
    assert_eq!(ServiceError::InternalServerError.message(), "Internal Server Error");
    assert_eq!(
        ServiceError::BadRequest("Invalid request".to_string()).message(),
        "Bad Request: Invalid request"
    );
    assert_eq!(
        ServiceError::Unauthorized("Invalid token".to_string()).message(),
        "Unauthorized: Invalid token"
    );
}

#[test]
fn constructors_keep_the_message() {
    assert_eq!(ServiceError::bad_request("a b"), ServiceError::BadRequest("a b".to_string()));
    assert_eq!(ServiceError::unauthorized("c"), ServiceError::Unauthorized("c".to_string()));
}

#[test]
fn flag_is_on_for_true_in_any_case() {
    for text in ["true", "TRUE", "True", "tRuE"] {
        assert!(flag_enabled(Some(text)));
    }
}

#[test]
fn flag_is_off_for_anything_else() {
    assert!(!flag_enabled(None));
    for text in ["", "false", "1", "yes", "true ", " true", "tru", "truee", "trüe", "on"] {
        assert!(!flag_enabled(Some(text)));
    }
}

#[test]
fn flag_agrees_with_lowercasing() {
    for text in ["true", "TRUE", "tRUe", "false", "", "TRUE\u{212a}", "\u{212a}rue", "ＴＲＵＥ", "trŭe"] {
        assert_eq!(flag_enabled(Some(text)), text.to_lowercase() == "true");
    }
}

#[test]
fn config_holds_what_it_is_given() {
    let cfg = Config {
        jwt_secret: "k".to_string(),
        verification_base_url: "v".to_string(),
        reset_password_base_url: "r".to_string(),
        email_verification_enabled: flag_enabled(Some("True")),
    };
    assert!(cfg.email_verification_enabled);
    assert_eq!(cfg.clone(), cfg);
}

#[test]
fn verification_mail_reads_as_expected() {
    assert_eq!(
        Mail::verification("https://svc.test", "a@x.com", "TOKEN"),
        Mail {
            to: "a@x.com".to_string(),
            subject: "Please verify your email".to_string(),
            body: "Click on the link to verify your email: https://svc.test/verify?token=TOKEN"
                .to_string(),
        }
    );
    assert_eq!(
        Mail::verification("", "", "").body,
        "Click on the link to verify your email: /verify?token="
    );
}

#[test]
fn reset_mail_reads_as_expected() {
    assert_eq!(
        Mail::reset("https://svc.test", "a@x.com", "TOKEN"),
        Mail {
            to: "a@x.com".to_string(),
            subject: "Reset Your Password".to_string(),
            body: "Click on the link to reset your password: https://svc.test/reset_password?token=TOKEN"
                .to_string(),
        }
    );
}

#[test]
fn code_mails_read_as_expected() {
    assert_eq!(
        Mail::code(CodePurpose::Login, "a@x.com", "ABC123"),
        Mail {
            to: "a@x.com".to_string(),
            subject: "Your 2FA code".to_string(),
            body: "Here is your 2FA code: ABC123".to_string(),
        }
    );
    assert_eq!(
        Mail::code(CodePurpose::Activation, "a@x.com", "ABC123"),
        Mail {
            to: "a@x.com".to_string(),
            subject: "Your 2FA activation code".to_string(),
            body: "Here is your 2FA activation code: ABC123".to_string(),
        }
    );
    assert_eq!(
        Mail::code(CodePurpose::Deactivation, "a@x.com", "ABC123"),
        Mail {
            to: "a@x.com".to_string(),
            subject: "Your 2FA deactivation code".to_string(),
            body: "Here is your 2FA deactivation code: ABC123".to_string(),
        }
    );
}
