use vstd::prelude::*;
use vstd::string::StringExecFns;

use crate::auth::flow::texts_view;
use crate::auth::helpers::{hash_failed, hash_with_fresh_salt, hashing, password_hashed};
use crate::auth::model::validation_error;
use crate::auth::services::signup::{taken, username_taken};
use crate::errors::{
    database_failure, failure, protocol_failure, AppError, ErrorKind, ErrorView,
};
use crate::text::framed;
use crate::user::helpers::{check_user_insert_availability, get_stored_user, missing};
use crate::user::model::{user_failures, user_valid, UserPayload, UserPayloadView};
use crate::user::store::{
    UserAction, UserActionView, UserEvent, UserEventView, UserReply, UserReplyView, UserRequest,
    UserRequestView,
};

verus! {

/// Where a registration of a user stands: what it has asked for and is
/// waiting on.
#[derive(Debug, PartialEq, Eq)]
pub enum InsertUserFlow {
    /// Waiting to hear what is taken.
    Availability { payload: UserPayload },
    /// Waiting for the digest of the password.
    Hashing { payload: UserPayload },
    /// Waiting for the user to be written.
    User { username: String, digest: String },
    /// Waiting for the credentials to be written.
    Credentials { username: String },
    /// Waiting for the user's digest to be read back.
    ReadUser { username: String },
    /// Waiting for the credentials' digest to be read back.
    ReadCredentials { username: String, stored: String },
    /// Over.
    Done,
}

pub ghost enum InsertUserFlowView {
    Availability { payload: UserPayloadView },
    Hashing { payload: UserPayloadView },
    User { username: Seq<char>, digest: Seq<char> },
    Credentials { username: Seq<char> },
    ReadUser { username: Seq<char> },
    ReadCredentials { username: Seq<char>, stored: Seq<char> },
    Done,
}

impl View for InsertUserFlow {
    type V = InsertUserFlowView;

    open spec fn view(&self) -> InsertUserFlowView {
        match *self {
            InsertUserFlow::Availability { payload } => InsertUserFlowView::Availability {
                payload: payload@,
            },
            InsertUserFlow::Hashing { payload } => InsertUserFlowView::Hashing { payload: payload@ },
            InsertUserFlow::User { username, digest } => InsertUserFlowView::User {
                username: username@,
                digest: digest@,
            },
            InsertUserFlow::Credentials { username } => InsertUserFlowView::Credentials {
                username: username@,
            },
            InsertUserFlow::ReadUser { username } => InsertUserFlowView::ReadUser {
                username: username@,
            },
            InsertUserFlow::ReadCredentials { username, stored } => InsertUserFlowView::ReadCredentials {
                username: username@,
                stored: stored@,
            },
            InsertUserFlow::Done => InsertUserFlowView::Done,
        }
    }
}

pub open spec fn email_taken(email: Seq<char>) -> ErrorView {
    failure(
        ErrorKind::Conflict,
        "the email '"@ + email
            + "' is already associated with an existing account. please use a different email"@,
        None,
    )
}

pub open spec fn phone_taken(phone: Seq<char>) -> ErrorView {
    failure(
        ErrorKind::Conflict,
        "the phone number '"@ + phone
            + "' is already registered. please use a different phone number."@,
        None,
    )
}

pub open spec fn user_missing_message(username: Seq<char>) -> Seq<char> {
    "an unknown error occurred while processing your request. the user '"@ + username
        + "' has not been found in the database. please try again."@
}

pub open spec fn registration_failed() -> ErrorView {
    failure(
        ErrorKind::Conflict,
        "oops! registration failed. unable to create user."@,
        Some(
            "the password provided does not match the stored credentials. please contact support for assistance."@,
        ),
    )
}

/// What stands in the way of a registration: the first of username, e-mail
/// address and phone number that is taken.
pub open spec fn insert_conflict(payload: UserPayloadView, taken: (bool, bool, bool)) -> Option<
    ErrorView,
> {
    if taken.0 {
        Some(username_taken(payload.username))
    } else if taken.1 {
        match payload.email {
            Some(email) => Some(email_taken(email)),
            None => Some(protocol_failure()),
        }
    } else if taken.2 {
        match payload.phone_number {
            Some(phone) => Some(phone_taken(phone)),
            None => Some(protocol_failure()),
        }
    } else {
        None
    }
}

/// How a registration starts: a payload that breaks a rule ends it at once,
/// a valid one asks what is taken.
pub open spec fn insert_user_begin(payload: UserPayloadView) -> (InsertUserFlowView, UserActionView) {
    if user_valid(payload) {
        (
            InsertUserFlowView::Availability { payload },
            UserActionView::Ask(
                UserRequestView::Availability {
                    username: payload.username,
                    email: payload.email,
                    phone_number: payload.phone_number,
                },
            ),
        )
    } else {
        (
            InsertUserFlowView::Done,
            UserActionView::Finish(Err(validation_error(user_failures(payload)))),
        )
    }
}

pub open spec fn insert_user_over(error: ErrorView) -> (InsertUserFlowView, UserActionView) {
    (InsertUserFlowView::Done, UserActionView::Finish(Err(error)))
}

/// How a registration goes on from an answer.
pub open spec fn insert_user_next(flow: InsertUserFlowView, event: UserEventView) -> (
    InsertUserFlowView,
    UserActionView,
) {
    match (flow, event) {
        (
            InsertUserFlowView::Availability { payload },
            UserEventView::Reply(reply),
        ) => match crate::user::helpers::availability(reply) {
            Err(e) => insert_user_over(e),
            Ok(taken) => match insert_conflict(payload, taken) {
                Some(e) => insert_user_over(e),
                None => (
                    InsertUserFlowView::Hashing { payload },
                    UserActionView::Hash { password: payload.password },
                ),
            },
        },
        (InsertUserFlowView::Hashing { payload }, UserEventView::Hashed(Ok(digest))) => (
            InsertUserFlowView::User { username: payload.username, digest },
            UserActionView::Ask(
                UserRequestView::InsertUser {
                    username: payload.username,
                    password: digest,
                    full_name: payload.full_name,
                    email: payload.email,
                    phone_number: payload.phone_number,
                },
            ),
        ),
        (
            InsertUserFlowView::Hashing { payload },
            UserEventView::Hashed(Err(words)),
        ) => insert_user_over(hash_failed(payload.password, words)),
        (
            InsertUserFlowView::User { username, digest },
            UserEventView::Reply(UserReplyView::Done),
        ) => (
            InsertUserFlowView::Credentials { username },
            UserActionView::Ask(UserRequestView::InsertCredentials { username, password: digest }),
        ),
        (
            InsertUserFlowView::User { .. },
            UserEventView::Reply(UserReplyView::Failed(words)),
        ) => insert_user_over(database_failure(words)),
        (
            InsertUserFlowView::Credentials { username },
            UserEventView::Reply(UserReplyView::Done),
        ) => (
            InsertUserFlowView::ReadUser { username },
            UserActionView::Ask(UserRequestView::PasswordByUsername { username }),
        ),
        (
            InsertUserFlowView::Credentials { .. },
            UserEventView::Reply(UserReplyView::Failed(words)),
        ) => insert_user_over(database_failure(words)),
        (
            InsertUserFlowView::ReadUser { username },
            UserEventView::Reply(UserReplyView::Value(stored)),
        ) => (
            InsertUserFlowView::ReadCredentials { username, stored },
            UserActionView::Ask(UserRequestView::CredentialsPassword { username }),
        ),
        (
            InsertUserFlowView::ReadUser { username },
            UserEventView::Reply(UserReplyView::Failed(words)),
        ) => insert_user_over(missing(words, Some(user_missing_message(username)), None)),
        (
            InsertUserFlowView::ReadCredentials { username, stored },
            UserEventView::Reply(UserReplyView::Value(held)),
        ) => if stored == held {
            (InsertUserFlowView::Done, UserActionView::Finish(Ok(username)))
        } else {
            insert_user_over(registration_failed())
        },
        (
            InsertUserFlowView::ReadCredentials { username, .. },
            UserEventView::Reply(UserReplyView::Failed(words)),
        ) => insert_user_over(missing(words, Some(user_missing_message(username)), None)),
        _ => insert_user_over(protocol_failure()),
    }
}

/// The error for an e-mail address that a user already has.
pub fn email_in_use(email: &String) -> (e: AppError)
    ensures
        e@ == email_taken(email@),
{
    AppError::new(
        ErrorKind::Conflict,
        framed(
            "the email '",
            email.as_str(),
            "' is already associated with an existing account. please use a different email",
        ),
        None,
    )
}

/// The error for a phone number that a user already has.
pub fn phone_in_use(phone: &String) -> (e: AppError)
    ensures
        e@ == phone_taken(phone@),
{
    AppError::new(
        ErrorKind::Conflict,
        framed(
            "the phone number '",
            phone.as_str(),
            "' is already registered. please use a different phone number.",
        ),
        None,
    )
}

/// Names what stands in the way of a registration, if anything does.
pub fn conflict(payload: &UserPayload, taken_flags: (bool, bool, bool)) -> (r: Option<AppError>)
    ensures
        match r {
            Some(e) => insert_conflict(payload@, taken_flags) == Some(e@),
            None => insert_conflict(payload@, taken_flags) is None,
        },
{
    if taken_flags.0 {
        Some(taken(&payload.username))
    } else if taken_flags.1 {
        match &payload.email {
            Some(email) => Some(email_in_use(email)),
            None => Some(AppError::protocol()),
        }
    } else if taken_flags.2 {
        match &payload.phone_number {
            Some(phone) => Some(phone_in_use(phone)),
            None => Some(AppError::protocol()),
        }
    } else {
        None
    }
}

/// The message for a user that is not there after it was written.
pub fn user_missing(username: &String) -> (m: String)
    ensures
        m@ == user_missing_message(username@),
{
    framed(
        "an unknown error occurred while processing your request. the user '",
        username.as_str(),
        "' has not been found in the database. please try again.",
    )
}

/// Ends the operation with an error.
pub fn over(error: AppError) -> (r: (InsertUserFlow, UserAction))
    ensures
        (r.0@, r.1@) == insert_user_over(error@),
{
    (InsertUserFlow::Done, UserAction::Finish(Err(error)))
}

impl InsertUserFlow {
    /// Starts the registration of a user.
    pub fn begin(payload: UserPayload) -> (r: (InsertUserFlow, UserAction))
        ensures
            (r.0@, r.1@) == insert_user_begin(payload@),
    {
        match payload.validate() {
            Err(e) => (InsertUserFlow::Done, UserAction::Finish(Err(e))),
            Ok(()) => {
                let request = UserRequest::Availability {
                    username: payload.username.clone(),
                    email: copy_of(&payload.email),
                    phone_number: copy_of(&payload.phone_number),
                };
                (InsertUserFlow::Availability { payload }, UserAction::Ask(request))
            },
        }
    }

    /// Takes the answer to what the registration last asked for and says
    /// what it wants next.
    pub fn step(self, event: UserEvent) -> (r: (InsertUserFlow, UserAction))
        ensures
            (r.0@, r.1@) == insert_user_next(self@, event@),
    {
        match (self, event) {
            (InsertUserFlow::Availability { payload }, UserEvent::Reply(reply)) => {
                match check_user_insert_availability(reply) {
                    Err(e) => over(e),
                    Ok(taken_flags) => match conflict(&payload, taken_flags) {
                        Some(e) => over(e),
                        None => {
                            let password = payload.password.clone();
                            (InsertUserFlow::Hashing { payload }, UserAction::Hash { password })
                        },
                    },
                }
            },
            (InsertUserFlow::Hashing { payload }, UserEvent::Hashed(outcome)) => {
                match password_hashed(outcome, payload.password.as_str()) {
                    Err(e) => over(e),
                    Ok(digest) => {
                        let UserPayload {
                            full_name,
                            email,
                            phone_number,
                            username,
                            password: _,
                            confirm_password: _,
                        } = payload;
                        let request = UserRequest::InsertUser {
                            username: username.clone(),
                            password: digest.clone(),
                            full_name,
                            email,
                            phone_number,
                        };
                        (InsertUserFlow::User { username, digest }, UserAction::Ask(request))
                    },
                }
            },
            (InsertUserFlow::User { username, digest }, UserEvent::Reply(UserReply::Done)) => {
                let request = UserRequest::InsertCredentials {
                    username: username.clone(),
                    password: digest,
                };
                (InsertUserFlow::Credentials { username }, UserAction::Ask(request))
            },
            (InsertUserFlow::User { .. }, UserEvent::Reply(UserReply::Failed(words))) => over(
                AppError::database(words),
            ),
            (InsertUserFlow::Credentials { username }, UserEvent::Reply(UserReply::Done)) => {
                let request = UserRequest::PasswordByUsername { username: username.clone() };
                (InsertUserFlow::ReadUser { username }, UserAction::Ask(request))
            },
            (
                InsertUserFlow::Credentials { .. },
                UserEvent::Reply(UserReply::Failed(words)),
            ) => over(AppError::database(words)),
            (InsertUserFlow::ReadUser { username }, UserEvent::Reply(UserReply::Value(stored))) => {
                let request = UserRequest::CredentialsPassword { username: username.clone() };
                (InsertUserFlow::ReadCredentials { username, stored }, UserAction::Ask(request))
            },
            (
                InsertUserFlow::ReadUser { username },
                UserEvent::Reply(UserReply::Failed(words)),
            ) => {
                let message = user_missing(&username);
                match get_stored_user(UserReply::Failed(words), Some(message), None) {
                    Err(e) => over(e),
                    Ok(_) => over(AppError::protocol()),
                }
            },
            (
                InsertUserFlow::ReadCredentials { username, stored },
                UserEvent::Reply(UserReply::Value(held)),
            ) => {
                if stored == held {
                    (InsertUserFlow::Done, UserAction::Finish(Ok(username)))
                } else {
                    over(
                        AppError::detailed(
                            ErrorKind::Conflict,
                            "oops! registration failed. unable to create user.",
                            String::from_str(
                                "the password provided does not match the stored credentials. please contact support for assistance.",
                            ),
                        ),
                    )
                }
            },
            (
                InsertUserFlow::ReadCredentials { username, stored: _ },
                UserEvent::Reply(UserReply::Failed(words)),
            ) => {
                let message = user_missing(&username);
                match get_stored_user(UserReply::Failed(words), Some(message), None) {
                    Err(e) => over(e),
                    Ok(_) => over(AppError::protocol()),
                }
            },
            _ => over(AppError::protocol()),
        }
    }
}

/// What `insert_user_service` comes to for a hasher that answers `hashed`:
/// the step on the reply and, where that asks for a password to be hashed,
/// the step on the hasher's answer.
pub open spec fn insert_user_resumed(
    flow: InsertUserFlowView,
    reply: UserReplyView,
    hashed: Result<Seq<char>, Seq<char>>,
) -> (InsertUserFlowView, UserActionView) {
    let (waiting, asked) = insert_user_next(flow, UserEventView::Reply(reply));
    match asked {
        UserActionView::Hash { password } => insert_user_next(waiting, UserEventView::Hashed(hashed)),
        _ => (waiting, asked),
    }
}

/// The password that `insert_user_service` has hashed on the way, if the
/// reply led to one.
pub open spec fn insert_user_hashed(flow: InsertUserFlowView, reply: UserReplyView) -> Option<
    Seq<char>,
> {
    match insert_user_next(flow, UserEventView::Reply(reply)).1 {
        UserActionView::Hash { password } => Some(password),
        _ => None,
    }
}

/// Takes a registration on from the store's reply: hashes the password
/// where the registration asks for that, and says which request comes next
/// or how the registration ended.
pub fn insert_user_service(flow: InsertUserFlow, reply: UserReply) -> (r: (
    InsertUserFlow,
    UserAction,
))
    ensures
        !(r.1 is Hash),
        exists|hashed: Result<Seq<char>, Seq<char>>|
            {
                &&& insert_user_hashed(flow@, reply@) matches Some(password) ==> hashing(
                    password,
                    hashed,
                )
                &&& (r.0@, r.1@) == #[trigger] insert_user_resumed(flow@, reply@, hashed)
            },
{
    let (waiting, asked) = flow.step(UserEvent::Reply(reply));
    match asked {
        UserAction::Hash { password } => {
            let outcome = hash_with_fresh_salt(password.as_str());
            let ghost hashed = texts_view(outcome);
            let r = waiting.step(UserEvent::Hashed(outcome));
            assert((r.0@, r.1@) == insert_user_resumed(flow@, reply@, hashed));
            r
        },
        other => {
            assert((waiting@, other@) == insert_user_resumed(flow@, reply@, Err(Seq::empty())));
            (waiting, other)
        },
    }
}

/// A copy of an optional text.
pub fn copy_of(value: &Option<String>) -> (r: Option<String>)
    ensures
        crate::auth::flow::text(r) == crate::auth::flow::text(*value),
{
    match value {
        Some(v) => Some(v.clone()),
        None => None,
    }
}

} // verus!
