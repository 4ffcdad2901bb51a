use rst04_jwt::auth::codec::{completed, RawClaims, TokenFault};
use rst04_jwt::auth::helpers::{
    hash_with_fresh_salt, password_hashed, password_verdict, verify_password,
};
use rst04_jwt::auth::model::{check_password_length, check_username, note_field, verdict};
use rst04_jwt::auth::services::logout::still_there;
use rst04_jwt::auth::services::signin::unknown_user;
use rst04_jwt::auth::services::signup::taken;
use rst04_jwt::auth::Claims;
use rst04_jwt::errors::{AppError, AppErrorMessage, ErrorDetails, ErrorKind, FieldErrors};
use rst04_jwt::text::{digit_text, framed};
use rst04_jwt::user::model::{check_confirmation, check_email, check_password, check_phone};
use rst04_jwt::user::services::insert_user::{
    conflict, copy_of, email_in_use, phone_in_use, user_missing,
};
use rst04_jwt::user::services::update_user::{not_there, same_as_stored, text_or_empty};
use rst04_jwt::user::UserPayload;

fn raw(username: Option<&str>, iat: Option<i64>, exp: Option<i64>) -> RawClaims {
    RawClaims { username: username.map(|u| u.to_string()), iat, exp }
}

#[test]
fn a_payload_is_complete_with_all_three_claims() {
    assert_eq!(
        raw(Some("alice"), Some(1), Some(2)).into_claims(),
        Some(Claims { username: "alice".to_string(), iat: 1, exp: 2 })
    );
    assert_eq!(raw(None, Some(1), Some(2)).into_claims(), None);
    assert_eq!(raw(Some("alice"), None, Some(2)).into_claims(), None);
    assert_eq!(raw(Some("alice"), Some(1), None).into_claims(), None);
    assert_eq!(
        completed(Ok(raw(Some("alice"), Some(1), Some(2)))),
        Ok(Claims { username: "alice".to_string(), iat: 1, exp: 2 })
    );
    assert_eq!(
        completed(Ok(raw(Some("alice"), Some(1), None))),
        Err(TokenFault::Invalid(
            "the payload lacks one of the claims username, iat and exp".to_string()
        ))
    );
    assert_eq!(completed(Err(TokenFault::Expired)), Err(TokenFault::Expired));
    assert_eq!(
        completed(Err(TokenFault::Invalid("why".to_string()))),
        Err(TokenFault::Invalid("why".to_string()))
    );
}

#[test]
fn a_password_check_is_an_answer_or_an_internal_error() {
    assert_eq!(password_verdict(Ok(true)), Ok(true));
    assert_eq!(password_verdict(Ok(false)), Ok(false));
    assert_eq!(
        password_verdict(Err("why".to_string())),
        Err(AppError::InternalServerError(AppErrorMessage {
            code: 500,
            message: "failed to parse hashed password.".to_string(),
            details: Some(ErrorDetails::Text("why".to_string()))
        }))
    );
    let error = verify_password("Secret123!", "no digest at all").unwrap_err();
    assert_eq!(error.class(), ErrorKind::InternalServerError);
    assert_eq!(error.message().message, "failed to parse hashed password.");
    assert_eq!(verify_password("", "").unwrap_err().class(), ErrorKind::InternalServerError);
    assert_eq!(verify_password("Secret123!", "$argon2id$saltonly"), Ok(false));
}

#[test]
fn a_hash_is_a_digest_or_an_internal_error() {
    assert_eq!(password_hashed(Ok("digest".to_string()), "pw"), Ok("digest".to_string()));
    assert_eq!(
        password_hashed(Err("why".to_string()), "pw"),
        Err(AppError::InternalServerError(AppErrorMessage {
            code: 500,
            message: "failed to hash password: pw".to_string(),
            details: Some(ErrorDetails::Text("why".to_string()))
        }))
    );
    let digest = hash_with_fresh_salt("pw").unwrap();
    assert_ne!(digest, "pw");
    assert_eq!(verify_password("pw", &digest), Ok(true));
    assert_eq!(verify_password("pW", &digest), Ok(false));
}

#[test]
fn a_known_digest_decides_a_password() {
    let digest =
        "$argon2id$v=19$m=256,t=2,p=1$c29tZXNhbHQ$nf65EOgLrQMR/uIPnA4rEsF5h7TKyQwu9U1bMCHGi/4";
    assert_eq!(verify_password("password", digest), Ok(true));
    assert_eq!(verify_password("Password", digest), Ok(false));
    assert_eq!(verify_password("", digest), Ok(false));
}

#[test]
fn texts_are_framed_and_digits_are_written() {
    assert_eq!(framed("a '", "b", "' c"), "a 'b' c");
    assert_eq!(framed("", "", ""), "");
    let all: Vec<&str> = (0..10).map(digit_text).collect();
    assert_eq!(all, vec!["0", "1", "2", "3", "4", "5", "6", "7", "8", "9"]);
}

#[test]
fn the_field_checks_gather_their_messages() {
    assert_eq!(check_username("alice"), Vec::<String>::new());
    assert_eq!(check_username("a").len(), 2);
    assert_eq!(check_password_length("12345678"), Vec::<String>::new());
    assert_eq!(
        check_password_length("1234567"),
        vec!["password length must be at least 8 characters.".to_string()]
    );
    assert_eq!(check_email(&None), Vec::<String>::new());
    assert_eq!(check_email(&Some("a@gmail.com".to_string())), Vec::<String>::new());
    assert_eq!(check_email(&Some("a@b.example".to_string())).len(), 1);
    assert_eq!(check_phone(&None), Vec::<String>::new());
    assert_eq!(check_phone(&Some("123".to_string())).len(), 1);
    assert_eq!(check_password("Secret123!"), Vec::<String>::new());
    assert_eq!(check_password("x").len(), 3);
    assert_eq!(check_confirmation(&"a".to_string(), &"a".to_string()), Vec::<String>::new());
    assert_eq!(check_confirmation(&"a".to_string(), &"b".to_string()).len(), 1);
}

#[test]
fn only_fields_with_messages_are_noted() {
    let mut failures = Vec::new();
    note_field(&mut failures, "quiet", Vec::new());
    assert!(failures.is_empty());
    assert_eq!(verdict(Vec::new()), Ok(()));
    note_field(&mut failures, "loud", vec!["m1".to_string(), "m2".to_string()]);
    note_field(&mut failures, "quiet", Vec::new());
    note_field(&mut failures, "last", vec!["m3".to_string()]);
    assert_eq!(
        failures,
        vec![
            FieldErrors {
                field: "loud".to_string(),
                messages: vec!["m1".to_string(), "m2".to_string()]
            },
            FieldErrors { field: "last".to_string(), messages: vec!["m3".to_string()] }
        ]
    );
    match verdict(failures) {
        Err(AppError::UnprocessableEntity(body)) => match body.details {
            Some(ErrorDetails::Fields(fields)) => assert_eq!(fields.len(), 2),
            other => panic!("expected field errors, got {:?}", other),
        },
        other => panic!("expected a refusal, got {:?}", other),
    }
}

#[test]
fn the_messages_name_what_they_are_about() {
    assert_eq!(
        unknown_user(&"carol".to_string(), "why".to_string()),
        AppError::NotFound(AppErrorMessage {
            code: 404,
            message: "the provided user 'carol' was not found in the database. please check the username or register first.".to_string(),
            details: Some(ErrorDetails::Text("why".to_string()))
        })
    );
    assert_eq!(
        still_there(&"carol".to_string()).message().message,
        "an unexpected error occurred while processing your request. refresh_token from user 'carol' still exists in the database. please try again."
    );
    assert_eq!(
        taken(&"carol".to_string()).message().message,
        "the username 'carol' is already taken. please choose a different username."
    );
    assert_eq!(
        email_in_use(&"c@gmail.com".to_string()).message().message,
        "the email 'c@gmail.com' is already associated with an existing account. please use a different email"
    );
    assert_eq!(
        phone_in_use(&"0812".to_string()).message().message,
        "the phone number '0812' is already registered. please use a different phone number."
    );
    assert_eq!(
        user_missing(&"carol".to_string()),
        "an unknown error occurred while processing your request. the user 'carol' has not been found in the database. please try again."
    );
    assert_eq!(
        not_there("why".to_string(), "gone".to_string()),
        AppError::NotFound(AppErrorMessage {
            code: 404,
            message: "gone".to_string(),
            details: Some(ErrorDetails::Text("why".to_string()))
        })
    );
}

#[test]
fn a_conflict_is_the_first_of_name_address_and_number() {
    let payload = UserPayload {
        full_name: None,
        email: None,
        phone_number: Some("0812345678".to_string()),
        username: "carol".to_string(),
        password: "Secret123!".to_string(),
        confirm_password: "Secret123!".to_string(),
    };
    assert_eq!(conflict(&payload, (false, false, false)), None);
    assert_eq!(conflict(&payload, (true, true, true)), Some(taken(&"carol".to_string())));
    assert_eq!(conflict(&payload, (false, true, false)), Some(AppError::protocol()));
    assert_eq!(
        conflict(&payload, (false, false, true)),
        Some(phone_in_use(&"0812345678".to_string()))
    );
}

#[test]
fn optional_texts_are_copied_and_compared() {
    assert_eq!(copy_of(&None), None);
    assert_eq!(copy_of(&Some("x".to_string())), Some("x".to_string()));
    assert_eq!(text_or_empty(&None), "");
    assert_eq!(text_or_empty(&Some("x".to_string())), "x");
    assert!(same_as_stored(&"x".to_string(), &Some("x".to_string())));
    assert!(!same_as_stored(&"x".to_string(), &Some("y".to_string())));
    assert!(!same_as_stored(&"x".to_string(), &None));
    assert!(same_as_stored(&String::new(), &None));
    assert!(!same_as_stored(&String::new(), &Some("y".to_string())));
}
