use rst04_jwt::auth::model::{alphanumeric, matches_username_pattern, refuse};
use rst04_jwt::auth::{CredentialsPayload, In};
use rst04_jwt::errors::{
    code_of, AppError, AppErrorMessage, ErrorDetails, ErrorKind, FieldErrors,
};

fn payload(username: &str, password: &str) -> CredentialsPayload {
    CredentialsPayload { username: username.to_string(), password: password.to_string() }
}

fn failures(payload: &CredentialsPayload) -> Vec<(String, Vec<String>)> {
    match payload.validate() {
        Ok(()) => Vec::new(),
        Err(AppError::UnprocessableEntity(body)) => {
            assert_eq!(body.code, 422);
            assert_eq!(body.message, "validation failed. there are errors in the input data.");
            match body.details {
                Some(ErrorDetails::Fields(fields)) => {
                    assert!(!fields.is_empty());
                    fields.into_iter().map(|f| (f.field, f.messages)).collect()
                }
                other => panic!("expected field errors, got {:?}", other),
            }
        }
        Err(other) => panic!("expected a validation error, got {:?}", other),
    }
}

const LENGTH: &str = "username length must be between 2 to 25 characters.";
const PATTERN: &str =
    "username must consist of alphanumeric characters and be at least 2 characters long.";
const PASSWORD: &str = "password length must be at least 8 characters.";

#[test]
fn a_valid_payload_passes() {
    assert_eq!(payload("alice", "Secret123!").validate(), Ok(()));
    assert_eq!(payload("a1", "12345678").validate(), Ok(()));
    assert_eq!(payload("ABCDEFGHIJKLMNOPQRSTUVWXY", "        ").validate(), Ok(()));
}

#[test]
fn a_short_username_breaks_both_rules() {
    assert_eq!(
        failures(&payload("a", "Secret123!")),
        vec![("username".to_string(), vec![LENGTH.to_string(), PATTERN.to_string()])]
    );
    assert_eq!(
        failures(&payload("", "Secret123!")),
        vec![("username".to_string(), vec![LENGTH.to_string(), PATTERN.to_string()])]
    );
}

#[test]
fn a_long_username_breaks_the_length_rule() {
    assert_eq!(
        failures(&payload("ABCDEFGHIJKLMNOPQRSTUVWXYZ", "Secret123!")),
        vec![("username".to_string(), vec![LENGTH.to_string()])]
    );
}

#[test]
fn a_username_with_other_characters_breaks_the_pattern() {
    for name in ["al ice", "alice!", "al\u{e9}ce", "alice\n", "_alice"] {
        assert_eq!(
            failures(&payload(name, "Secret123!")),
            vec![("username".to_string(), vec![PATTERN.to_string()])]
        );
    }
}

#[test]
fn a_short_password_breaks_its_rule() {
    assert_eq!(
        failures(&payload("alice", "1234567")),
        vec![("password".to_string(), vec![PASSWORD.to_string()])]
    );
}

#[test]
fn length_counts_characters_not_bytes() {
    assert_eq!(payload("alice", "\u{e9}\u{e9}\u{e9}\u{e9}\u{e9}\u{e9}\u{e9}\u{e9}").validate(), Ok(()));
    assert_eq!(
        failures(&payload("alice", "\u{e9}\u{e9}\u{e9}\u{e9}")),
        vec![("password".to_string(), vec![PASSWORD.to_string()])]
    );
}

#[test]
fn every_broken_rule_is_named() {
    assert_eq!(
        failures(&payload("!", "short")),
        vec![
            ("username".to_string(), vec![LENGTH.to_string(), PATTERN.to_string()]),
            ("password".to_string(), vec![PASSWORD.to_string()])
        ]
    );
}

#[test]
fn alphanumeric_is_ascii_letters_and_digits() {
    for c in ['0', '9', 'a', 'z', 'A', 'Z', 'm', '5'] {
        assert!(alphanumeric(c));
    }
    for c in ['/', ':', '@', '[', '`', '{', ' ', '\u{e9}', '\u{661}'] {
        assert!(!alphanumeric(c));
    }
    assert!(matches_username_pattern("ab"));
    assert!(!matches_username_pattern("a"));
    assert!(!matches_username_pattern("a b"));
}

#[test]
fn the_envelope_gives_its_payload() {
    let envelope = In { credentials: payload("alice", "Secret123!") };
    assert_eq!(envelope.into_inner(), payload("alice", "Secret123!"));
}

#[test]
fn each_class_of_error_has_its_status_code() {
    let classes = [
        (ErrorKind::UnprocessableEntity, 422),
        (ErrorKind::InternalServerError, 500),
        (ErrorKind::Conflict, 409),
        (ErrorKind::NotFound, 404),
        (ErrorKind::Unauthorized, 401),
        (ErrorKind::Forbidden, 403),
        (ErrorKind::SeeOther, 303),
    ];
    for (kind, code) in classes {
        assert_eq!(code_of(kind), code);
        let error = AppError::plain(kind, "message");
        assert_eq!(error.class(), kind);
        assert_eq!(
            error.message(),
            &AppErrorMessage { code, message: "message".to_string(), details: None }
        );
        let error = AppError::detailed(kind, "message", "why".to_string());
        assert_eq!(error.message().details, Some(ErrorDetails::Text("why".to_string())));
        assert_eq!(error.message().code, code);
    }
}

#[test]
fn errors_are_built_from_their_parts() {
    let body =
        AppErrorMessage { code: 1, message: "m".to_string(), details: None::<ErrorDetails> };
    let error = AppError::of_kind(ErrorKind::Conflict, body);
    assert!(matches!(error, AppError::Conflict(_)));
    assert_eq!(error.message().code, 1);
    let error = AppError::new(ErrorKind::NotFound, "m".to_string(), Some("d".to_string()));
    assert_eq!(
        error,
        AppError::NotFound(AppErrorMessage {
            code: 404,
            message: "m".to_string(),
            details: Some(ErrorDetails::Text("d".to_string()))
        })
    );
    let error = AppError::database("down".to_string());
    assert_eq!(
        error,
        AppError::InternalServerError(AppErrorMessage {
            code: 500,
            message: "an database error occurred while processing your request.".to_string(),
            details: Some(ErrorDetails::Text("down".to_string()))
        })
    );
    let fields = vec![FieldErrors { field: "f".to_string(), messages: vec!["m".to_string()] }];
    let error = refuse(fields);
    assert_eq!(error.class(), ErrorKind::UnprocessableEntity);
}
