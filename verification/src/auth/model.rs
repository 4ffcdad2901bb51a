use vstd::prelude::*;
use vstd::string::StrSliceExecFns;
use vstd::string::StringExecFns;

use crate::errors::{
    AppError, AppErrorMessage, DetailsView, ErrorDetails, ErrorKind, ErrorView, FieldErrors,
    FieldErrorsView, MessageView, UNPROCESSABLE_ENTITY,
};

verus! {

/// The stored record of an account: its name, the digest of its password and,
/// while a session is live, the refresh token and the second it expires.
#[derive(Debug, PartialEq, Eq)]
pub struct Credentials {
    pub username: String,
    pub password: String,
    pub refresh_token: Option<String>,
    pub max_age: Option<i64>,
}

pub ghost struct CredentialsView {
    pub username: Seq<char>,
    pub password: Seq<char>,
    pub refresh_token: Option<Seq<char>>,
    pub max_age: Option<int>,
}

impl CredentialsView {
    /// The token and its expiry are set together and cleared together.
    pub open spec fn wf(self) -> bool {
        self.refresh_token is Some <==> self.max_age is Some
    }
}

impl View for Credentials {
    type V = CredentialsView;

    open spec fn view(&self) -> CredentialsView {
        CredentialsView {
            username: self.username@,
            password: self.password@,
            refresh_token: match self.refresh_token {
                Some(t) => Some(t@),
                None => None,
            },
            max_age: match self.max_age {
                Some(a) => Some(a as int),
                None => None,
            },
        }
    }
}

impl Credentials {
    /// The record of a newly registered account: no session yet.
    pub fn new(username: String, password: String) -> (record: Credentials)
        ensures
            record@ == (CredentialsView {
                username: username@,
                password: password@,
                refresh_token: None,
                max_age: None,
            }),
            record@.wf(),
    {
        Credentials { username, password, refresh_token: None, max_age: None }
    }

    /// Whether the token and its expiry are both there or both missing.
    pub fn is_wf(&self) -> (ok: bool)
        ensures
            ok == self@.wf(),
    {
        self.refresh_token.is_some() == self.max_age.is_some()
    }

    /// A copy of this record.
    pub fn duplicate(&self) -> (copy: Credentials)
        ensures
            copy@ == self@,
    {
        Credentials {
            username: self.username.clone(),
            password: self.password.clone(),
            refresh_token: match &self.refresh_token {
                Some(t) => Some(t.clone()),
                None => None,
            },
            max_age: self.max_age,
        }
    }
}

/// The envelope of a sign-in request.
#[derive(Debug, PartialEq, Eq)]
pub struct In<T> {
    pub credentials: T,
}

impl<T> In<T> {
    /// Takes the payload out of its envelope.
    pub fn into_inner(self) -> (payload: T)
        ensures
            payload == self.credentials,
    {
        self.credentials
    }
}

/// What a client presents to sign in.
#[derive(Debug, PartialEq, Eq)]
pub struct CredentialsPayload {
    pub username: String,
    pub password: String,
}

pub ghost struct PayloadView {
    pub username: Seq<char>,
    pub password: Seq<char>,
}

impl View for CredentialsPayload {
    type V = PayloadView;

    open spec fn view(&self) -> PayloadView {
        PayloadView { username: self.username@, password: self.password@ }
    }
}

pub open spec fn is_alphanumeric(c: char) -> bool {
    ('0' <= c && c <= '9') || ('a' <= c && c <= 'z') || ('A' <= c && c <= 'Z')
}

/// Two or more characters, each an ASCII letter or digit.
pub open spec fn username_pattern(name: Seq<char>) -> bool {
    name.len() >= 2 && forall|i: int| 0 <= i < name.len() ==> is_alphanumeric(#[trigger] name[i])
}

pub open spec fn username_length(name: Seq<char>) -> bool {
    2 <= name.len() <= 25
}

pub open spec fn password_length(password: Seq<char>) -> bool {
    password.len() >= 8
}

pub open spec fn username_length_message() -> Seq<char> {
    "username length must be between 2 to 25 characters."@
}

pub open spec fn username_pattern_message() -> Seq<char> {
    "username must consist of alphanumeric characters and be at least 2 characters long."@
}

pub open spec fn password_length_message() -> Seq<char> {
    "password length must be at least 8 characters."@
}

pub open spec fn validation_message() -> Seq<char> {
    "validation failed. there are errors in the input data."@
}

/// The messages that a username fails with, in the order of its rules.
pub open spec fn username_failures(name: Seq<char>) -> Seq<Seq<char>> {
    (if username_length(name) {
        Seq::<Seq<char>>::empty()
    } else {
        seq![username_length_message()]
    }) + (if username_pattern(name) {
        Seq::<Seq<char>>::empty()
    } else {
        seq![username_pattern_message()]
    })
}

pub open spec fn password_failures(password: Seq<char>) -> Seq<Seq<char>> {
    if password_length(password) {
        Seq::<Seq<char>>::empty()
    } else {
        seq![password_length_message()]
    }
}

/// One entry for each field with the given failures, none for a field without.
pub open spec fn field_entry(field: Seq<char>, failures: Seq<Seq<char>>) -> Seq<FieldErrorsView> {
    if failures.len() == 0 {
        Seq::<FieldErrorsView>::empty()
    } else {
        seq![FieldErrorsView { field, messages: failures }]
    }
}

/// The failures of a sign-in payload, field by field.
pub open spec fn payload_failures(payload: PayloadView) -> Seq<FieldErrorsView> {
    field_entry("username"@, username_failures(payload.username)) + field_entry(
        "password"@,
        password_failures(payload.password),
    )
}

/// A sign-in payload is valid when its username is 2 to 25 ASCII letters and
/// digits and its password has at least 8 characters.
pub open spec fn payload_valid(payload: PayloadView) -> bool {
    username_length(payload.username) && username_pattern(payload.username) && password_length(
        payload.password,
    )
}

/// The error that a payload with the given failures is refused with.
pub open spec fn validation_error(failures: Seq<FieldErrorsView>) -> ErrorView {
    ErrorView {
        kind: ErrorKind::UnprocessableEntity,
        body: MessageView {
            code: UNPROCESSABLE_ENTITY,
            message: validation_message(),
            details: Some(DetailsView::Fields(failures)),
        },
    }
}

/// Whether a character is an ASCII letter or digit.
pub fn alphanumeric(c: char) -> (r: bool)
    ensures
        r == is_alphanumeric(c),
{
    ('0' <= c && c <= '9') || ('a' <= c && c <= 'z') || ('A' <= c && c <= 'Z')
}

/// Whether a name is two or more ASCII letters and digits.
pub fn matches_username_pattern(name: &str) -> (r: bool)
    ensures
        r == username_pattern(name@),
{
    let n = name.unicode_len();
    let mut i: usize = 0;
    while i < n
        invariant
            n == name@.len(),
            i <= n,
            forall|j: int| 0 <= j < i ==> is_alphanumeric(#[trigger] name@[j]),
        decreases n - i,
    {
        if !alphanumeric(name.get_char(i)) {
            return false;
        }
        i += 1;
    }
    n >= 2
}

/// Wraps the failures of a payload in the error that refuses it.
pub fn refuse(failures: Vec<FieldErrors>) -> (e: AppError)
    ensures
        e@ == validation_error(crate::auth::model::entries(failures@)),
{
    AppError::UnprocessableEntity(
        AppErrorMessage {
            code: UNPROCESSABLE_ENTITY,
            message: String::from_str("validation failed. there are errors in the input data."),
            details: Some(ErrorDetails::Fields(failures)),
        },
    )
}

/// The views of the failures gathered so far.
pub open spec fn entries(failures: Seq<FieldErrors>) -> Seq<FieldErrorsView> {
    failures.map_values(|f: FieldErrors| f@)
}

/// Adds the entry of a field to the failures gathered so far, where the
/// field has any.
pub fn note_field(failures: &mut Vec<FieldErrors>, field: &str, messages: Vec<String>)
    ensures
        entries(final(failures)@) == entries(old(failures)@) + field_entry(
            field@,
            crate::errors::texts(messages@),
        ),
{
    if messages.len() > 0 {
        failures.push(FieldErrors { field: String::from_str(field), messages });
    }
    assert(entries(failures@) =~= entries(old(failures)@) + field_entry(
        field@,
        crate::errors::texts(messages@),
    ));
}

/// The messages that a username fails with.
pub fn check_username(name: &str) -> (messages: Vec<String>)
    ensures
        crate::errors::texts(messages@) == username_failures(name@),
{
    let mut messages: Vec<String> = Vec::new();
    let length = name.unicode_len();
    if length < 2 || length > 25 {
        messages.push(String::from_str("username length must be between 2 to 25 characters."));
    }
    if !matches_username_pattern(name) {
        messages.push(
            String::from_str(
                "username must consist of alphanumeric characters and be at least 2 characters long.",
            ),
        );
    }
    assert(crate::errors::texts(messages@) =~= username_failures(name@));
    messages
}

/// The messages that the password of a sign-in fails with.
pub fn check_password_length(password: &str) -> (messages: Vec<String>)
    ensures
        crate::errors::texts(messages@) == password_failures(password@),
{
    let mut messages: Vec<String> = Vec::new();
    if password.unicode_len() < 8 {
        messages.push(String::from_str("password length must be at least 8 characters."));
    }
    assert(crate::errors::texts(messages@) =~= password_failures(password@));
    messages
}

/// The payload with the given failures passes, or is refused with them.
pub fn verdict(failures: Vec<FieldErrors>) -> (r: Result<(), AppError>)
    ensures
        r is Ok <==> failures@.len() == 0,
        r matches Err(e) ==> e@ == validation_error(entries(failures@)),
{
    if failures.len() == 0 {
        Ok(())
    } else {
        Err(refuse(failures))
    }
}

impl CredentialsPayload {
    /// Checks the payload against its rules and names every rule it breaks.
    pub fn validate(&self) -> (r: Result<(), AppError>)
        ensures
            r is Ok <==> payload_valid(self@),
            r matches Err(e) ==> e@ == validation_error(payload_failures(self@)),
    {
        let mut failures: Vec<FieldErrors> = Vec::new();
        assert(entries(failures@) =~= Seq::<FieldErrorsView>::empty());
        note_field(&mut failures, "username", check_username(self.username.as_str()));
        note_field(&mut failures, "password", check_password_length(self.password.as_str()));
        assert(entries(failures@) =~= payload_failures(self@));
        verdict(failures)
    }
}

} // verus!
