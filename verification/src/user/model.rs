use validator::validate_email;
use vstd::prelude::*;
use vstd::string::StrSliceExecFns;
use vstd::string::StringSliceAdditionalSpecFns;
use vstd::string::StringExecFns;
use vstd::utf8::encode_utf8;

use crate::auth::flow::text;
use crate::auth::model::{
    check_password_length, check_username, entries, field_entry, note_field, password_failures,
    password_length, username_failures, username_length, username_pattern, validation_error,
    verdict,
};
use crate::errors::{texts, AppError, FieldErrors, FieldErrorsView};
use crate::text::{
    capitalize_words, capitalized, chars_of, is_space, lowercase, lowercased, space,
    unicode_lowercase, unicode_numeric, unicode_uppercase,
};

verus! {

/// A user as the store holds it.
#[derive(Debug, PartialEq, Eq)]
pub struct User {
    pub id_user: i32,
    pub full_name: Option<String>,
    pub email: Option<String>,
    pub phone_number: Option<String>,
    pub username: String,
    pub password: String,
}

pub ghost struct UserView {
    pub id_user: int,
    pub full_name: Option<Seq<char>>,
    pub email: Option<Seq<char>>,
    pub phone_number: Option<Seq<char>>,
    pub username: Seq<char>,
    pub password: Seq<char>,
}

impl View for User {
    type V = UserView;

    open spec fn view(&self) -> UserView {
        UserView {
            id_user: self.id_user as int,
            full_name: text(self.full_name),
            email: text(self.email),
            phone_number: text(self.phone_number),
            username: self.username@,
            password: self.password@,
        }
    }
}

/// The envelope of a request about a user.
#[derive(Debug, PartialEq, Eq)]
pub struct In<T> {
    pub user: T,
}

impl<T> In<T> {
    /// Takes the payload out of its envelope.
    pub fn into_inner(self) -> (payload: T)
        ensures
            payload == self.user,
    {
        self.user
    }
}

/// What a client presents to register or to change a user.
#[derive(Debug, PartialEq, Eq)]
pub struct UserPayload {
    pub full_name: Option<String>,
    pub email: Option<String>,
    pub phone_number: Option<String>,
    pub username: String,
    pub password: String,
    pub confirm_password: String,
}

pub ghost struct UserPayloadView {
    pub full_name: Option<Seq<char>>,
    pub email: Option<Seq<char>>,
    pub phone_number: Option<Seq<char>>,
    pub username: Seq<char>,
    pub password: Seq<char>,
    pub confirm_password: Seq<char>,
}

impl View for UserPayload {
    type V = UserPayloadView;

    open spec fn view(&self) -> UserPayloadView {
        UserPayloadView {
            full_name: text(self.full_name),
            email: text(self.email),
            phone_number: text(self.phone_number),
            username: self.username@,
            password: self.password@,
            confirm_password: self.confirm_password@,
        }
    }
}

/// Whether a text is an e-mail address by the rules of HTML forms: what
/// `validator::validate_email` answers.
pub uninterp spec fn email_format(email: Seq<char>) -> bool;

/// Calls `validator::validate_email`, which goes by the text alone.
#[verifier::external_body]
fn email_well_formed(email: &str) -> (r: bool)
    ensures
        r == email_format(email@),
{
    validate_email(email)
}

/// Position `i` holds the only `@` of the text.
pub open spec fn only_at(email: Seq<char>, i: int) -> bool {
    &&& 0 <= i < email.len()
    &&& email[i] == '@'
    &&& forall|j: int| 0 <= j < email.len() && j != i ==> email[j] != '@'
}

/// What follows the `@` of a text that has exactly one.
pub open spec fn email_domain(email: Seq<char>) -> Option<Seq<char>> {
    if exists|i: int| only_at(email, i) {
        Some(email.skip((choose|i: int| only_at(email, i)) + 1))
    } else {
        None
    }
}

pub open spec fn supported_domain(domain: Seq<char>) -> bool {
    domain == "gmail.com"@ || domain == "icloud.com"@ || domain == "yahoo.com"@ || domain
        == "outlook.com"@
}

/// What the domain rule makes of an e-mail address.
pub open spec fn email_domain_verdict(email: Seq<char>) -> Result<(), Seq<char>> {
    match email_domain(email) {
        None => Err("invalid email format"@),
        Some(domain) => if supported_domain(domain) {
            Ok(())
        } else {
            Err("invalid email domain"@)
        },
    }
}

/// Whether every character of a phone number is numeric.
pub open spec fn phone_numeric(phone: Seq<char>) -> bool {
    forall|i: int| 0 <= i < phone.len() ==> unicode_numeric(#[trigger] phone[i])
}

pub open spec fn is_ascii_digit(c: char) -> bool {
    '0' <= c <= '9'
}

/// A password is strong where it has no white space, has a lowercase
/// character, an uppercase character and a decimal digit, and is at least 8
/// bytes long.
pub open spec fn password_strong(password: Seq<char>) -> bool {
    &&& forall|i: int| 0 <= i < password.len() ==> !is_space(#[trigger] password[i])
    &&& exists|i: int| 0 <= i < password.len() && unicode_lowercase(#[trigger] password[i])
    &&& exists|i: int| 0 <= i < password.len() && unicode_uppercase(#[trigger] password[i])
    &&& exists|i: int| 0 <= i < password.len() && is_ascii_digit(#[trigger] password[i])
    &&& encode_utf8(password).len() >= 8
}

pub open spec fn is_special(c: char) -> bool {
    c == '!' || c == '@' || c == '#' || c == '$' || c == '%' || c == '^' || c == '&' || c == '*'
        || c == '(' || c == ')'
}

/// A password has a special character where one of `!@#$%^&*()` stands in
/// it and no line feed does.
pub open spec fn password_special(password: Seq<char>) -> bool {
    &&& exists|i: int| 0 <= i < password.len() && is_special(#[trigger] password[i])
    &&& forall|i: int| 0 <= i < password.len() ==> #[trigger] password[i] != '\n'
}

pub open spec fn phone_length(phone: Seq<char>) -> bool {
    9 <= phone.len() <= 14
}

/// The messages that an e-mail address fails with, in the order of its
/// rules.
pub open spec fn email_failures(email: Seq<char>) -> Seq<Seq<char>> {
    (if email_format(email) {
        Seq::<Seq<char>>::empty()
    } else {
        seq!["invalid email format."@]
    }) + (if email_domain_verdict(email) is Ok {
        Seq::<Seq<char>>::empty()
    } else {
        seq![
            "invalid email format or domain. supported domains: gmail.com, icloud.com, yahoo.com, outlook.com"@,
        ]
    })
}

pub open spec fn phone_failures(phone: Seq<char>) -> Seq<Seq<char>> {
    (if phone_length(phone) {
        Seq::<Seq<char>>::empty()
    } else {
        seq!["phone number must be between 9 to 14."@]
    }) + (if phone_numeric(phone) {
        Seq::<Seq<char>>::empty()
    } else {
        seq!["invalid phone number format. must contain only digits."@]
    })
}

pub open spec fn user_password_failures(password: Seq<char>) -> Seq<Seq<char>> {
    password_failures(password) + (if password_strong(password) {
        Seq::<Seq<char>>::empty()
    } else {
        seq![
            "password must contain at least one upper case, lower case, number and 8 characters long. don't use spaces."@,
        ]
    }) + (if password_special(password) {
        Seq::<Seq<char>>::empty()
    } else {
        seq!["pasword must be at least contain one special character."@]
    })
}

pub open spec fn confirm_failures(password: Seq<char>, confirm: Seq<char>) -> Seq<Seq<char>> {
    if confirm == password {
        Seq::<Seq<char>>::empty()
    } else {
        seq!["password do not match. password and confirm_password must be the same."@]
    }
}

/// The failures of an optional field: none where the field is missing.
pub open spec fn optional_failures(
    value: Option<Seq<char>>,
    failures: spec_fn(Seq<char>) -> Seq<Seq<char>>,
) -> Seq<Seq<char>> {
    match value {
        Some(v) => failures(v),
        None => Seq::empty(),
    }
}

/// The failures of a user payload, field by field, in the order of the
/// fields.
pub open spec fn user_failures(payload: UserPayloadView) -> Seq<FieldErrorsView> {
    field_entry("email"@, optional_failures(payload.email, |e: Seq<char>| email_failures(e)))
        + field_entry(
        "phone_number"@,
        optional_failures(payload.phone_number, |p: Seq<char>| phone_failures(p)),
    ) + field_entry("username"@, username_failures(payload.username)) + field_entry(
        "password"@,
        user_password_failures(payload.password),
    ) + field_entry(
        "confirm_password"@,
        confirm_failures(payload.password, payload.confirm_password),
    )
}

/// A user payload is valid where its e-mail address, if it has one, is well
/// formed and of a supported domain; its phone number, if it has one, is 9 to
/// 14 numeric characters; its username is 2 to 25 ASCII letters and digits;
/// its password is strong, at least 8 characters long and has a special
/// character; and the confirmation repeats the password.
pub open spec fn user_valid(payload: UserPayloadView) -> bool {
    &&& payload.email matches Some(email) ==> email_format(email) && email_domain_verdict(
        email,
    ) is Ok
    &&& payload.phone_number matches Some(phone) ==> phone_length(phone) && phone_numeric(phone)
    &&& username_length(payload.username)
    &&& username_pattern(payload.username)
    &&& password_length(payload.password)
    &&& password_strong(payload.password)
    &&& password_special(payload.password)
    &&& payload.confirm_password == payload.password
}

/// Checks that an e-mail address has one `@` and a supported domain after
/// it.
pub fn validate_email_domain(email: &str) -> (r: Result<(), String>)
    ensures
        match r {
            Ok(()) => email_domain_verdict(email@) is Ok,
            Err(code) => email_domain_verdict(email@) == Err::<(), Seq<char>>(code@),
        },
{
    let chars = chars_of(email);
    let n = chars.len();
    let mut count: usize = 0;
    let mut at: usize = 0;
    let mut i: usize = 0;
    while i < n
        invariant
            n == chars@.len(),
            chars@ == email@,
            i <= n,
            count <= i,
            count == 0 ==> forall|j: int| 0 <= j < i ==> email@[j] != '@',
            count == 1 ==> at < i && email@[at as int] == '@' && forall|j: int|
                0 <= j < i && j != at ==> email@[j] != '@',
            count >= 2 ==> exists|a: int, b: int|
                0 <= a < b < i && email@[a] == '@' && email@[b] == '@',
        decreases n - i,
    {
        if chars[i] == '@' {
            if count == 0 {
                at = i;
            } else if count == 1 {
                assert(email@[at as int] == '@' && email@[i as int] == '@');
            }
            count += 1;
        }
        i += 1;
    }
    if count == 1 {
        proof {
            assert(only_at(email@, at as int));
            let chosen = choose|k: int| only_at(email@, k);
            assert(chosen == at);
            assert(email@.skip(at + 1) =~= email@.subrange(at + 1, n as int));
        }
        let domain = String::from_str(email.substring_char(at + 1, n));
        if domain == String::from_str("gmail.com") || domain == String::from_str("icloud.com")
            || domain == String::from_str("yahoo.com") || domain == String::from_str(
            "outlook.com",
        ) {
            Ok(())
        } else {
            Err(String::from_str("invalid email domain"))
        }
    } else {
        proof {
            if exists|k: int| only_at(email@, k) {
                let k = choose|k: int| only_at(email@, k);
                if count >= 2 {
                    let (a, b) = choose|a: int, b: int|
                        0 <= a < b < n && email@[a] == '@' && email@[b] == '@';
                    assert(a != k || b != k);
                }
            }
        }
        Err(String::from_str("invalid email format"))
    }
}

/// Checks that every character of a phone number is numeric.
pub fn validate_phone_number(phone_number: &str) -> (r: Result<(), String>)
    ensures
        r is Ok <==> phone_numeric(phone_number@),
        r matches Err(code) ==> code@ == "invalid digits"@,
{
    let chars = chars_of(phone_number);
    let mut i: usize = 0;
    while i < chars.len()
        invariant
            chars@ == phone_number@,
            i <= chars.len(),
            forall|j: int| 0 <= j < i ==> unicode_numeric(#[trigger] phone_number@[j]),
        decreases chars.len() - i,
    {
        if !chars[i].is_numeric() {
            return Err(String::from_str("invalid digits"));
        }
        i += 1;
    }
    Ok(())
}

/// Checks that a password is strong.
pub fn validate_password(password: &str) -> (r: Result<(), String>)
    ensures
        r is Ok <==> password_strong(password@),
        r matches Err(code) ==> code@ == "password validation failed"@,
{
    let chars = chars_of(password);
    let mut has_whitespace = false;
    let mut has_lowercase = false;
    let mut has_uppercase = false;
    let mut has_digit = false;
    let mut i: usize = 0;
    while i < chars.len()
        invariant
            chars@ == password@,
            i <= chars.len(),
            has_whitespace == exists|j: int| 0 <= j < i && is_space(#[trigger] password@[j]),
            has_lowercase == exists|j: int| 0 <= j < i && unicode_lowercase(#[trigger] password@[j]),
            has_uppercase == exists|j: int| 0 <= j < i && unicode_uppercase(#[trigger] password@[j]),
            has_digit == exists|j: int| 0 <= j < i && is_ascii_digit(#[trigger] password@[j]),
        decreases chars.len() - i,
    {
        let c = chars[i];
        has_whitespace = has_whitespace || space(c);
        has_lowercase = has_lowercase || c.is_lowercase();
        has_uppercase = has_uppercase || c.is_uppercase();
        has_digit = has_digit || ('0' <= c && c <= '9');
        i += 1;
    }
    let bytes = password.as_bytes();
    if !has_whitespace && has_lowercase && has_uppercase && has_digit && bytes.len() >= 8 {
        Ok(())
    } else {
        Err(String::from_str("password validation failed"))
    }
}

/// Whether a password has one of `!@#$%^&*()` and no line feed.
pub fn has_special_character(password: &str) -> (r: bool)
    ensures
        r == password_special(password@),
{
    let chars = chars_of(password);
    let mut special = false;
    let mut i: usize = 0;
    while i < chars.len()
        invariant
            chars@ == password@,
            i <= chars.len(),
            special == exists|j: int| 0 <= j < i && is_special(#[trigger] password@[j]),
            forall|j: int| 0 <= j < i ==> #[trigger] password@[j] != '\n',
        decreases chars.len() - i,
    {
        let c = chars[i];
        if c == '\n' {
            return false;
        }
        special = special || c == '!' || c == '@' || c == '#' || c == '$' || c == '%' || c == '^'
            || c == '&' || c == '*' || c == '(' || c == ')';
        i += 1;
    }
    special
}

/// A text in lowercase.
pub fn to_lowercase(text: String) -> (r: String)
    ensures
        r@ == lowercased(text@),
{
    lowercase(text.as_str())
}

pub open spec fn lowered(value: Option<Seq<char>>) -> Option<Seq<char>> {
    match value {
        Some(v) => Some(lowercased(v)),
        None => None,
    }
}

/// A text in lowercase, where there is one.
pub fn to_option_lowercase(value: Option<String>) -> (r: Option<String>)
    ensures
        text(r) == lowered(text(value)),
{
    match value {
        Some(v) => Some(lowercase(v.as_str())),
        None => None,
    }
}

pub open spec fn capitalized_name(value: Option<Seq<char>>) -> Option<Seq<char>> {
    match value {
        Some(v) => Some(capitalized(v)),
        None => None,
    }
}

/// A name with each word capitalized, where there is one.
pub fn capitalize_option_words(value: Option<String>) -> (r: Option<String>)
    ensures
        text(r) == capitalized_name(text(value)),
{
    match value {
        Some(v) => Some(capitalize_words(v.as_str())),
        None => None,
    }
}

/// How a payload reads once it is taken in: the name capitalized, the e-mail
/// address and the username in lowercase.
pub open spec fn normalized(payload: UserPayloadView) -> UserPayloadView {
    UserPayloadView {
        full_name: capitalized_name(payload.full_name),
        email: lowered(payload.email),
        username: lowercased(payload.username),
        ..payload
    }
}

impl UserPayload {
    /// Takes a payload in: capitalizes the name and puts the e-mail address
    /// and the username in lowercase.
    pub fn normalize(self) -> (r: UserPayload)
        ensures
            r@ == normalized(self@),
    {
        UserPayload {
            full_name: capitalize_option_words(self.full_name),
            email: to_option_lowercase(self.email),
            phone_number: self.phone_number,
            username: to_lowercase(self.username),
            password: self.password,
            confirm_password: self.confirm_password,
        }
    }

    /// Checks the payload against its rules and names every rule it breaks.
    pub fn validate(&self) -> (r: Result<(), AppError>)
        ensures
            r is Ok <==> user_valid(self@),
            r matches Err(e) ==> e@ == validation_error(user_failures(self@)),
    {
        let mut failures: Vec<FieldErrors> = Vec::new();
        assert(entries(failures@) =~= Seq::<FieldErrorsView>::empty());
        note_field(&mut failures, "email", check_email(&self.email));
        note_field(&mut failures, "phone_number", check_phone(&self.phone_number));
        note_field(&mut failures, "username", check_username(self.username.as_str()));
        note_field(&mut failures, "password", check_password(self.password.as_str()));
        note_field(
            &mut failures,
            "confirm_password",
            check_confirmation(&self.password, &self.confirm_password),
        );
        assert(entries(failures@) =~= user_failures(self@));
        verdict(failures)
    }
}

/// The messages that an optional e-mail address fails with.
pub fn check_email(email: &Option<String>) -> (messages: Vec<String>)
    ensures
        texts(messages@) == optional_failures(text(*email), |e: Seq<char>| email_failures(e)),
{
    let mut messages: Vec<String> = Vec::new();
    match email {
        Some(value) => {
            if !email_well_formed(value.as_str()) {
                messages.push(String::from_str("invalid email format."));
            }
            if validate_email_domain(value.as_str()).is_err() {
                messages.push(
                    String::from_str(
                        "invalid email format or domain. supported domains: gmail.com, icloud.com, yahoo.com, outlook.com",
                    ),
                );
            }
            assert(texts(messages@) =~= email_failures(value@));
        },
        None => {
            assert(texts(messages@) =~= Seq::<Seq<char>>::empty());
        },
    }
    messages
}

/// The messages that an optional phone number fails with.
pub fn check_phone(phone: &Option<String>) -> (messages: Vec<String>)
    ensures
        texts(messages@) == optional_failures(text(*phone), |p: Seq<char>| phone_failures(p)),
{
    let mut messages: Vec<String> = Vec::new();
    match phone {
        Some(value) => {
            let length = value.as_str().unicode_len();
            if length < 9 || length > 14 {
                messages.push(String::from_str("phone number must be between 9 to 14."));
            }
            if validate_phone_number(value.as_str()).is_err() {
                messages.push(
                    String::from_str("invalid phone number format. must contain only digits."),
                );
            }
            assert(texts(messages@) =~= phone_failures(value@));
        },
        None => {
            assert(texts(messages@) =~= Seq::<Seq<char>>::empty());
        },
    }
    messages
}

/// The messages that the password of a user fails with.
pub fn check_password(password: &str) -> (messages: Vec<String>)
    ensures
        texts(messages@) == user_password_failures(password@),
{
    let mut messages = check_password_length(password);
    if validate_password(password).is_err() {
        messages.push(
            String::from_str(
                "password must contain at least one upper case, lower case, number and 8 characters long. don't use spaces.",
            ),
        );
    }
    if !has_special_character(password) {
        messages.push(String::from_str("pasword must be at least contain one special character."));
    }
    assert(texts(messages@) =~= user_password_failures(password@));
    messages
}

/// The messages that a confirmation fails with.
pub fn check_confirmation(password: &String, confirm: &String) -> (messages: Vec<String>)
    ensures
        texts(messages@) == confirm_failures(password@, confirm@),
{
    let mut messages: Vec<String> = Vec::new();
    if *confirm != *password {
        messages.push(
            String::from_str("password do not match. password and confirm_password must be the same."),
        );
    }
    assert(texts(messages@) =~= confirm_failures(password@, confirm@));
    messages
}

} // verus!
