use rst04_jwt::errors::{AppError, ErrorDetails};
use rst04_jwt::text::{capitalize_words, chars_of, decimal, lowercase, segment_ranges};
use rst04_jwt::user::model::{
    capitalize_option_words, has_special_character, to_lowercase, to_option_lowercase,
    validate_email_domain, validate_password, validate_phone_number,
};
use rst04_jwt::user::{In, UserPayload};

fn payload() -> UserPayload {
    UserPayload {
        full_name: Some("Alice Liddell".to_string()),
        email: Some("alice@gmail.com".to_string()),
        phone_number: Some("0812345678".to_string()),
        username: "alice".to_string(),
        password: "Secret123!".to_string(),
        confirm_password: "Secret123!".to_string(),
    }
}

fn failures(payload: &UserPayload) -> Vec<(String, Vec<String>)> {
    match payload.validate() {
        Ok(()) => Vec::new(),
        Err(AppError::UnprocessableEntity(body)) => {
            assert_eq!(body.code, 422);
            assert_eq!(body.message, "validation failed. there are errors in the input data.");
            match body.details {
                Some(ErrorDetails::Fields(fields)) => {
                    assert!(!fields.is_empty());
                    fields.into_iter().map(|f| (f.field, f.messages)).collect()
                }
                other => panic!("expected field errors, got {:?}", other),
            }
        }
        Err(other) => panic!("expected a validation error, got {:?}", other),
    }
}

fn one(field: &str, messages: &[&str]) -> Vec<(String, Vec<String>)> {
    vec![(field.to_string(), messages.iter().map(|m| m.to_string()).collect())]
}

const EMAIL_FORMAT: &str = "invalid email format.";
const EMAIL_DOMAIN: &str =
    "invalid email format or domain. supported domains: gmail.com, icloud.com, yahoo.com, outlook.com";
const PHONE_LENGTH: &str = "phone number must be between 9 to 14.";
const PHONE_DIGITS: &str = "invalid phone number format. must contain only digits.";
const PASSWORD_LENGTH: &str = "password length must be at least 8 characters.";
const PASSWORD_STRONG: &str = "password must contain at least one upper case, lower case, number and 8 characters long. don't use spaces.";
const PASSWORD_SPECIAL: &str = "pasword must be at least contain one special character.";
const CONFIRM: &str = "password do not match. password and confirm_password must be the same.";

#[test]
fn a_valid_user_payload_passes() {
    assert_eq!(payload().validate(), Ok(()));
    let mut bare = payload();
    bare.full_name = None;
    bare.email = None;
    bare.phone_number = None;
    assert_eq!(bare.validate(), Ok(()));
}

#[test]
fn the_domain_of_an_email_address_must_be_supported() {
    for domain in ["gmail.com", "icloud.com", "yahoo.com", "outlook.com"] {
        assert_eq!(validate_email_domain(&format!("someone@{}", domain)), Ok(()));
    }
    assert_eq!(validate_email_domain("a@example.com"), Err("invalid email domain".to_string()));
    assert_eq!(validate_email_domain("a@Gmail.com"), Err("invalid email domain".to_string()));
    assert_eq!(validate_email_domain("a@"), Err("invalid email domain".to_string()));
    assert_eq!(validate_email_domain("@gmail.com"), Ok(()));
    assert_eq!(validate_email_domain("gmail.com"), Err("invalid email format".to_string()));
    assert_eq!(validate_email_domain("a@b@gmail.com"), Err("invalid email format".to_string()));
    assert_eq!(validate_email_domain(""), Err("invalid email format".to_string()));
}

#[test]
fn an_email_address_is_checked_for_format_and_domain() {
    let mut p = payload();
    p.email = Some("alice@example.com".to_string());
    assert_eq!(failures(&p), one("email", &[EMAIL_DOMAIN]));
    p.email = Some("not an address".to_string());
    assert_eq!(failures(&p), one("email", &[EMAIL_FORMAT, EMAIL_DOMAIN]));
    p.email = Some("a b@gmail.com".to_string());
    assert_eq!(failures(&p), one("email", &[EMAIL_FORMAT]));
}

#[test]
fn a_phone_number_is_nine_to_fourteen_numeric_characters() {
    assert_eq!(validate_phone_number("0812345678"), Ok(()));
    assert_eq!(validate_phone_number(""), Ok(()));
    assert_eq!(validate_phone_number("\u{661}\u{662}\u{bd}"), Ok(()));
    assert_eq!(validate_phone_number("08123x"), Err("invalid digits".to_string()));
    assert_eq!(validate_phone_number("+62812"), Err("invalid digits".to_string()));
    let mut p = payload();
    p.phone_number = Some("12345678".to_string());
    assert_eq!(failures(&p), one("phone_number", &[PHONE_LENGTH]));
    p.phone_number = Some("123456789012345".to_string());
    assert_eq!(failures(&p), one("phone_number", &[PHONE_LENGTH]));
    p.phone_number = Some("12345678901234".to_string());
    assert_eq!(failures(&p), Vec::new());
    p.phone_number = Some("12345-6789".to_string());
    assert_eq!(failures(&p), one("phone_number", &[PHONE_DIGITS]));
    p.phone_number = Some("12-34".to_string());
    assert_eq!(failures(&p), one("phone_number", &[PHONE_LENGTH, PHONE_DIGITS]));
}

#[test]
fn a_password_must_be_strong() {
    assert_eq!(validate_password("Secret123!"), Ok(()));
    assert_eq!(validate_password("Secret12"), Ok(()));
    for weak in ["secret123!", "SECRET123!", "Secretabc!", "Secret 123!", "Se1!", ""] {
        assert_eq!(validate_password(weak), Err("password validation failed".to_string()));
    }
    assert_eq!(validate_password("\u{e9}\u{c9}1\u{e9}\u{c9}"), Ok(()));
    assert_eq!(
        validate_password("Secre\u{661}\u{662}\u{663}"),
        Err("password validation failed".to_string())
    );
}

#[test]
fn a_password_must_have_a_special_character() {
    for c in "!@#$%^&*()".chars() {
        assert!(has_special_character(&format!("abc{}def", c)));
    }
    assert!(!has_special_character("Secret123"));
    assert!(!has_special_character("Secret123-_+="));
    assert!(!has_special_character("Secret\n123!"));
    assert!(has_special_character("Secret\r123!"));
    assert!(!has_special_character(""));
}

#[test]
fn every_rule_that_a_password_breaks_is_named() {
    let mut p = payload();
    p.password = "abc".to_string();
    p.confirm_password = "abc".to_string();
    assert_eq!(
        failures(&p),
        one("password", &[PASSWORD_LENGTH, PASSWORD_STRONG, PASSWORD_SPECIAL])
    );
    p.password = "Secret123".to_string();
    p.confirm_password = "Secret123".to_string();
    assert_eq!(failures(&p), one("password", &[PASSWORD_SPECIAL]));
    p.password = "secret123!".to_string();
    p.confirm_password = "secret123!".to_string();
    assert_eq!(failures(&p), one("password", &[PASSWORD_STRONG]));
}

#[test]
fn the_confirmation_must_repeat_the_password() {
    let mut p = payload();
    p.confirm_password = "Secret123?".to_string();
    assert_eq!(failures(&p), one("confirm_password", &[CONFIRM]));
}

#[test]
fn the_fields_of_a_user_payload_fail_in_their_order() {
    let p = UserPayload {
        full_name: None,
        email: Some("x".to_string()),
        phone_number: Some("y".to_string()),
        username: "?".to_string(),
        password: "z".to_string(),
        confirm_password: "w".to_string(),
    };
    let fields: Vec<String> = failures(&p).into_iter().map(|(field, _)| field).collect();
    assert_eq!(fields, vec!["email", "phone_number", "username", "password", "confirm_password"]);
}

#[test]
fn normalize_capitalizes_the_name_and_lowers_the_address_and_the_username() {
    let p = UserPayload {
        full_name: Some("  aLICE   van der  LIDDELL ".to_string()),
        email: Some("Alice@Gmail.COM".to_string()),
        phone_number: Some("0812345678".to_string()),
        username: "AlicE".to_string(),
        password: "Secret123!".to_string(),
        confirm_password: "Secret123!".to_string(),
    };
    let n = p.normalize();
    assert_eq!(n.full_name, Some("Alice Van Der Liddell".to_string()));
    assert_eq!(n.email, Some("alice@gmail.com".to_string()));
    assert_eq!(n.username, "alice");
    assert_eq!(n.password, "Secret123!");
    assert_eq!(n.phone_number, Some("0812345678".to_string()));
}

#[test]
fn capitalize_words_follows_unicode() {
    assert_eq!(capitalize_words(""), "");
    assert_eq!(capitalize_words("   "), "");
    assert_eq!(capitalize_words("x"), "X");
    assert_eq!(capitalize_words("\u{e9}mile  ZOLA"), "\u{c9}mile Zola");
    assert_eq!(capitalize_words("\u{df}eta"), "SSeta");
    assert_eq!(capitalize_words("a\u{3000}b\tc\nd"), "A B C D");
    assert_eq!(capitalize_option_words(None), None);
    assert_eq!(capitalize_option_words(Some("ab cd".to_string())), Some("Ab Cd".to_string()));
}

#[test]
fn lowercase_follows_unicode() {
    assert_eq!(lowercase("ABC\u{c9}"), "abc\u{e9}");
    assert_eq!(to_lowercase("MiXeD".to_string()), "mixed");
    assert_eq!(to_option_lowercase(Some("A@B.C".to_string())), Some("a@b.c".to_string()));
    assert_eq!(to_option_lowercase(None), None);
    assert_eq!(lowercase("\u{3a3}\u{391}\u{3a3}"), "\u{3c3}\u{3b1}\u{3c2}");
}

#[test]
fn decimal_writes_a_number_without_leading_zeros() {
    assert_eq!(decimal(0), "0");
    assert_eq!(decimal(7), "7");
    assert_eq!(decimal(10), "10");
    assert_eq!(decimal(1_234_567_890), "1234567890");
    assert_eq!(decimal(u32::MAX), "4294967295");
    let mut n: u32 = 0;
    while n < 2_000 {
        assert_eq!(decimal(n), n.to_string());
        n += 1;
    }
}

#[test]
fn segment_ranges_finds_each_word() {
    let chars = chars_of(" ab  c \u{e9}\u{e9} ");
    assert_eq!(chars.len(), 10);
    assert_eq!(segment_ranges(&chars), vec![(1, 3), (5, 6), (7, 9)]);
    assert_eq!(segment_ranges(&chars_of("")), Vec::new());
    assert_eq!(segment_ranges(&chars_of("word")), vec![(0, 4)]);
    let text = " some  words\there and there ";
    let chars = chars_of(text);
    let ranges = segment_ranges(&chars);
    let words: Vec<String> =
        ranges.iter().map(|&(from, to)| chars[from..to].iter().collect()).collect();
    let expected: Vec<String> = text.split_whitespace().map(|w| w.to_string()).collect();
    assert_eq!(words, expected);
}

#[test]
fn the_envelope_of_a_user_gives_its_payload() {
    let envelope = In { user: payload() };
    assert_eq!(envelope.into_inner(), payload());
}
