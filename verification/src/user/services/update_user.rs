use vstd::prelude::*;
use vstd::string::StrSliceExecFns;
use vstd::string::StringExecFns;

use crate::auth::flow::{text, texts_view};
use crate::auth::helpers::{hash_failed, hash_with_fresh_salt, hashing, password_hashed};
use crate::auth::model::validation_error;
use crate::auth::services::signup::{taken, username_taken};
use crate::errors::{
    database_failure, failure, protocol_failure, AppError, ErrorKind, ErrorView,
};
use crate::text::{decimal, digits, framed};
use crate::user::helpers::{get_stored_user, missing};
use crate::user::model::{user_failures, user_valid, User, UserPayload, UserPayloadView, UserView};
use crate::user::services::insert_user::{
    copy_of, email_in_use, email_taken, phone_in_use, phone_taken, user_missing,
    user_missing_message,
};
use crate::user::store::{
    UserAction, UserActionView, UserEvent, UserEventView, UserReply, UserReplyView, UserRequest,
    UserRequestView,
};

verus! {

/// What a change of a user carries from step to step: the id, the payload
/// and, once it is read, the user as stored.
#[derive(Debug, PartialEq, Eq)]
pub struct Change {
    pub id: u32,
    pub payload: UserPayload,
    pub stored: User,
}

pub ghost struct ChangeView {
    pub id: u32,
    pub payload: UserPayloadView,
    pub stored: UserView,
}

impl View for Change {
    type V = ChangeView;

    open spec fn view(&self) -> ChangeView {
        ChangeView { id: self.id, payload: self.payload@, stored: self.stored@ }
    }
}

/// Where a change of a user stands: what it has asked for and is waiting
/// on.
#[derive(Debug, PartialEq, Eq)]
pub enum UpdateUserFlow {
    /// Waiting for the user as stored.
    Stored { id: u32, payload: UserPayload },
    /// Waiting to hear whether the username is in use.
    Username { change: Change },
    /// Waiting to hear whether the e-mail address is in use.
    Email { change: Change },
    /// Waiting to hear whether the phone number is in use.
    Phone { change: Change },
    /// Waiting for the digest of the password.
    Hashing { change: Change },
    /// Waiting for the user to be written.
    User { id: u32, username: String, stored_username: String, digest: String },
    /// Waiting for the credentials to be written.
    Credentials { id: u32, username: String, stored_username: String },
    /// Waiting for the user's digest to be read back.
    ReadUser { id: u32, username: String, stored_username: String },
    /// Waiting for the credentials' digest to be read back.
    ReadCredentials { username: String, stored_username: String, stored: String },
    /// Over.
    Done,
}

pub ghost enum UpdateUserFlowView {
    Stored { id: u32, payload: UserPayloadView },
    Username { change: ChangeView },
    Email { change: ChangeView },
    Phone { change: ChangeView },
    Hashing { change: ChangeView },
    User { id: u32, username: Seq<char>, stored_username: Seq<char>, digest: Seq<char> },
    Credentials { id: u32, username: Seq<char>, stored_username: Seq<char> },
    ReadUser { id: u32, username: Seq<char>, stored_username: Seq<char> },
    ReadCredentials { username: Seq<char>, stored_username: Seq<char>, stored: Seq<char> },
    Done,
}

impl View for UpdateUserFlow {
    type V = UpdateUserFlowView;

    open spec fn view(&self) -> UpdateUserFlowView {
        match *self {
            UpdateUserFlow::Stored { id, payload } => UpdateUserFlowView::Stored {
                id,
                payload: payload@,
            },
            UpdateUserFlow::Username { change } => UpdateUserFlowView::Username { change: change@ },
            UpdateUserFlow::Email { change } => UpdateUserFlowView::Email { change: change@ },
            UpdateUserFlow::Phone { change } => UpdateUserFlowView::Phone { change: change@ },
            UpdateUserFlow::Hashing { change } => UpdateUserFlowView::Hashing { change: change@ },
            UpdateUserFlow::User {
                id,
                username,
                stored_username,
                digest,
            } => UpdateUserFlowView::User {
                id,
                username: username@,
                stored_username: stored_username@,
                digest: digest@,
            },
            UpdateUserFlow::Credentials {
                id,
                username,
                stored_username,
            } => UpdateUserFlowView::Credentials {
                id,
                username: username@,
                stored_username: stored_username@,
            },
            UpdateUserFlow::ReadUser { id, username, stored_username } => UpdateUserFlowView::ReadUser {
                id,
                username: username@,
                stored_username: stored_username@,
            },
            UpdateUserFlow::ReadCredentials {
                username,
                stored_username,
                stored,
            } => UpdateUserFlowView::ReadCredentials {
                username: username@,
                stored_username: stored_username@,
                stored: stored@,
            },
            UpdateUserFlow::Done => UpdateUserFlowView::Done,
        }
    }
}

pub open spec fn id_unknown_message(id: u32) -> Seq<char> {
    "the user with id '"@ + digits(id as nat) + "' was not found in the database."@
}

pub open spec fn id_missing_message(id: u32) -> Seq<char> {
    "an unknown error occurred while processing your request. the user with id '"@ + digits(
        id as nat,
    ) + "' has not been found in the database. please try again."@
}

pub open spec fn update_failed() -> ErrorView {
    failure(
        ErrorKind::InternalServerError,
        "oops! update user failed. unable to update user."@,
        Some(
            "the provided password does not match the stored credentials. please contact support for assistance."@,
        ),
    )
}

pub open spec fn update_user_over(error: ErrorView) -> (UpdateUserFlowView, UserActionView) {
    (UpdateUserFlowView::Done, UserActionView::Finish(Err(error)))
}

/// What a stored value reads as where there is none.
pub open spec fn or_empty(value: Option<Seq<char>>) -> Seq<char> {
    match value {
        Some(v) => v,
        None => Seq::empty(),
    }
}

/// After the username: the e-mail address is looked up where the payload
/// has one, else the phone number.
pub open spec fn after_username(change: ChangeView) -> (UpdateUserFlowView, UserActionView) {
    match change.payload.email {
        Some(email) => (
            UpdateUserFlowView::Email { change },
            UserActionView::Ask(UserRequestView::EmailInUse { email }),
        ),
        None => after_email(change),
    }
}

/// After the e-mail address: the phone number is looked up where the
/// payload has one, else the password is hashed.
pub open spec fn after_email(change: ChangeView) -> (UpdateUserFlowView, UserActionView) {
    match change.payload.phone_number {
        Some(phone_number) => (
            UpdateUserFlowView::Phone { change },
            UserActionView::Ask(UserRequestView::PhoneInUse { phone_number }),
        ),
        None => after_phone(change),
    }
}

pub open spec fn after_phone(change: ChangeView) -> (UpdateUserFlowView, UserActionView) {
    (UpdateUserFlowView::Hashing { change }, UserActionView::Hash { password: change.payload.password })
}

/// How a change starts: a payload that breaks a rule ends it at once, a
/// valid one asks for the user as stored.
pub open spec fn update_user_begin(id: u32, payload: UserPayloadView) -> (
    UpdateUserFlowView,
    UserActionView,
) {
    if user_valid(payload) {
        (
            UpdateUserFlowView::Stored { id, payload },
            UserActionView::Ask(UserRequestView::UserById { id }),
        )
    } else {
        update_user_over(validation_error(user_failures(payload)))
    }
}

/// How a change goes on from an answer. A username, an e-mail address or a
/// phone number stands in its way where a user holds it as anything but
/// what this user has stored.
pub open spec fn update_user_next(flow: UpdateUserFlowView, event: UserEventView) -> (
    UpdateUserFlowView,
    UserActionView,
) {
    match (flow, event) {
        (
            UpdateUserFlowView::Stored { id, payload },
            UserEventView::Reply(UserReplyView::Found(stored)),
        ) => (
            UpdateUserFlowView::Username { change: ChangeView { id, payload, stored } },
            UserActionView::Ask(UserRequestView::UsernameInUse { username: payload.username }),
        ),
        (
            UpdateUserFlowView::Stored { id, .. },
            UserEventView::Reply(UserReplyView::Failed(words)),
        ) => update_user_over(missing(words, Some(id_unknown_message(id)), None)),
        (
            UpdateUserFlowView::Username { change },
            UserEventView::Reply(UserReplyView::Value(held)),
        ) => if held != change.stored.username {
            update_user_over(username_taken(change.payload.username))
        } else {
            after_username(change)
        },
        (
            UpdateUserFlowView::Username { change },
            UserEventView::Reply(UserReplyView::Failed(_)),
        ) => after_username(change),
        (
            UpdateUserFlowView::Email { change },
            UserEventView::Reply(UserReplyView::Value(held)),
        ) => if held != or_empty(change.stored.email) {
            update_user_over(email_taken(or_empty(change.payload.email)))
        } else {
            after_email(change)
        },
        (
            UpdateUserFlowView::Email { change },
            UserEventView::Reply(UserReplyView::Failed(_)),
        ) => after_email(change),
        (
            UpdateUserFlowView::Phone { change },
            UserEventView::Reply(UserReplyView::Value(held)),
        ) => if held != or_empty(change.stored.phone_number) {
            update_user_over(phone_taken(or_empty(change.payload.phone_number)))
        } else {
            after_phone(change)
        },
        (
            UpdateUserFlowView::Phone { change },
            UserEventView::Reply(UserReplyView::Failed(_)),
        ) => after_phone(change),
        (UpdateUserFlowView::Hashing { change }, UserEventView::Hashed(Ok(digest))) => (
            UpdateUserFlowView::User {
                id: change.id,
                username: change.payload.username,
                stored_username: change.stored.username,
                digest,
            },
            UserActionView::Ask(
                UserRequestView::UpdateUser {
                    id: change.id,
                    username: change.payload.username,
                    password: digest,
                    email: change.payload.email,
                    phone_number: change.payload.phone_number,
                    full_name: change.payload.full_name,
                },
            ),
        ),
        (
            UpdateUserFlowView::Hashing { change },
            UserEventView::Hashed(Err(words)),
        ) => update_user_over(hash_failed(change.payload.password, words)),
        (
            UpdateUserFlowView::User { id, username, stored_username, digest },
            UserEventView::Reply(UserReplyView::Done),
        ) => (
            UpdateUserFlowView::Credentials { id, username, stored_username },
            UserActionView::Ask(UserRequestView::UpdateCredentials { username, password: digest }),
        ),
        (
            UpdateUserFlowView::User { .. },
            UserEventView::Reply(UserReplyView::Failed(words)),
        ) => update_user_over(database_failure(words)),
        (
            UpdateUserFlowView::Credentials { id, username, stored_username },
            UserEventView::Reply(UserReplyView::Done),
        ) => (
            UpdateUserFlowView::ReadUser { id, username, stored_username },
            UserActionView::Ask(UserRequestView::PasswordById { id }),
        ),
        (
            UpdateUserFlowView::Credentials { .. },
            UserEventView::Reply(UserReplyView::Failed(words)),
        ) => update_user_over(database_failure(words)),
        (
            UpdateUserFlowView::ReadUser { id, username, stored_username },
            UserEventView::Reply(UserReplyView::Value(stored)),
        ) => (
            UpdateUserFlowView::ReadCredentials { username, stored_username, stored },
            UserActionView::Ask(UserRequestView::CredentialsPassword { username }),
        ),
        (
            UpdateUserFlowView::ReadUser { id, .. },
            UserEventView::Reply(UserReplyView::Failed(words)),
        ) => update_user_over(missing(words, Some(id_missing_message(id)), None)),
        (
            UpdateUserFlowView::ReadCredentials { username, stored_username, stored },
            UserEventView::Reply(UserReplyView::Value(held)),
        ) => if stored == held {
            (UpdateUserFlowView::Done, UserActionView::Finish(Ok(stored_username)))
        } else {
            update_user_over(update_failed())
        },
        (
            UpdateUserFlowView::ReadCredentials { username, .. },
            UserEventView::Reply(UserReplyView::Failed(words)),
        ) => update_user_over(missing(words, Some(user_missing_message(username)), None)),
        _ => update_user_over(protocol_failure()),
    }
}

/// Ends the operation with an error.
pub fn over(error: AppError) -> (r: (UpdateUserFlow, UserAction))
    ensures
        (r.0@, r.1@) == update_user_over(error@),
{
    (UpdateUserFlow::Done, UserAction::Finish(Err(error)))
}

/// Whether a value that a user holds is the one that this user has stored.
pub fn same_as_stored(held: &String, stored: &Option<String>) -> (r: bool)
    ensures
        r == (held@ == or_empty(text(*stored))),
{
    match stored {
        Some(value) => *held == *value,
        None => {
            proof {
                if held@.len() == 0 {
                    assert(held@ =~= Seq::<char>::empty());
                }
            }
            held.as_str().unicode_len() == 0
        },
    }
}

/// The error for a failed read, with the given message.
pub fn not_there(words: String, message: String) -> (e: AppError)
    ensures
        e@ == missing(words@, Some(message@), None),
{
    match get_stored_user(UserReply::Failed(words), Some(message), None) {
        Err(e) => e,
        Ok(_) => AppError::protocol(),
    }
}

/// Goes on after the username.
pub fn go_after_username(change: Change) -> (r: (UpdateUserFlow, UserAction))
    ensures
        (r.0@, r.1@) == after_username(change@),
{
    match copy_of(&change.payload.email) {
        Some(email) => (
            UpdateUserFlow::Email { change },
            UserAction::Ask(UserRequest::EmailInUse { email }),
        ),
        None => go_after_email(change),
    }
}

/// Goes on after the e-mail address.
pub fn go_after_email(change: Change) -> (r: (UpdateUserFlow, UserAction))
    ensures
        (r.0@, r.1@) == after_email(change@),
{
    match copy_of(&change.payload.phone_number) {
        Some(phone_number) => (
            UpdateUserFlow::Phone { change },
            UserAction::Ask(UserRequest::PhoneInUse { phone_number }),
        ),
        None => go_after_phone(change),
    }
}

/// Goes on after the phone number.
pub fn go_after_phone(change: Change) -> (r: (UpdateUserFlow, UserAction))
    ensures
        (r.0@, r.1@) == after_phone(change@),
{
    let password = change.payload.password.clone();
    (UpdateUserFlow::Hashing { change }, UserAction::Hash { password })
}

/// The text of an optional value, or the empty text.
pub fn text_or_empty(value: &Option<String>) -> (r: String)
    ensures
        r@ == or_empty(text(*value)),
{
    match value {
        Some(v) => v.clone(),
        None => {
            let r = String::from_str("");
            proof {
                reveal_strlit("");
                assert(r@ =~= Seq::<char>::empty());
            }
            r
        },
    }
}

impl UpdateUserFlow {
    /// Starts the change of the user with this id.
    pub fn begin(id: u32, payload: UserPayload) -> (r: (UpdateUserFlow, UserAction))
        ensures
            (r.0@, r.1@) == update_user_begin(id, payload@),
    {
        match payload.validate() {
            Err(e) => over(e),
            Ok(()) => (
                UpdateUserFlow::Stored { id, payload },
                UserAction::Ask(UserRequest::UserById { id }),
            ),
        }
    }

    /// Takes the answer to what the change last asked for and says what it
    /// wants next.
    pub fn step(self, event: UserEvent) -> (r: (UpdateUserFlow, UserAction))
        ensures
            (r.0@, r.1@) == update_user_next(self@, event@),
    {
        match (self, event) {
            (UpdateUserFlow::Stored { id, payload }, UserEvent::Reply(UserReply::Found(stored))) => {
                let username = payload.username.clone();
                (
                    UpdateUserFlow::Username { change: Change { id, payload, stored } },
                    UserAction::Ask(UserRequest::UsernameInUse { username }),
                )
            },
            (UpdateUserFlow::Stored { id, payload: _ }, UserEvent::Reply(UserReply::Failed(words))) => {
                let message = framed(
                    "the user with id '",
                    decimal(id).as_str(),
                    "' was not found in the database.",
                );
                over(not_there(words, message))
            },
            (UpdateUserFlow::Username { change }, UserEvent::Reply(UserReply::Value(held))) => {
                if held != change.stored.username {
                    over(taken(&change.payload.username))
                } else {
                    go_after_username(change)
                }
            },
            (
                UpdateUserFlow::Username { change },
                UserEvent::Reply(UserReply::Failed(_)),
            ) => go_after_username(change),
            (UpdateUserFlow::Email { change }, UserEvent::Reply(UserReply::Value(held))) => {
                if !same_as_stored(&held, &change.stored.email) {
                    over(email_in_use(&text_or_empty(&change.payload.email)))
                } else {
                    go_after_email(change)
                }
            },
            (
                UpdateUserFlow::Email { change },
                UserEvent::Reply(UserReply::Failed(_)),
            ) => go_after_email(change),
            (UpdateUserFlow::Phone { change }, UserEvent::Reply(UserReply::Value(held))) => {
                if !same_as_stored(&held, &change.stored.phone_number) {
                    over(phone_in_use(&text_or_empty(&change.payload.phone_number)))
                } else {
                    go_after_phone(change)
                }
            },
            (
                UpdateUserFlow::Phone { change },
                UserEvent::Reply(UserReply::Failed(_)),
            ) => go_after_phone(change),
            (UpdateUserFlow::Hashing { change }, UserEvent::Hashed(outcome)) => {
                match password_hashed(outcome, change.payload.password.as_str()) {
                    Err(e) => over(e),
                    Ok(digest) => {
                        let Change { id, payload, stored } = change;
                        let UserPayload {
                            full_name,
                            email,
                            phone_number,
                            username,
                            password: _,
                            confirm_password: _,
                        } = payload;
                        let request = UserRequest::UpdateUser {
                            id,
                            username: username.clone(),
                            password: digest.clone(),
                            email,
                            phone_number,
                            full_name,
                        };
                        (
                            UpdateUserFlow::User {
                                id,
                                username,
                                stored_username: stored.username,
                                digest,
                            },
                            UserAction::Ask(request),
                        )
                    },
                }
            },
            (
                UpdateUserFlow::User { id, username, stored_username, digest },
                UserEvent::Reply(UserReply::Done),
            ) => {
                let request = UserRequest::UpdateCredentials {
                    username: username.clone(),
                    password: digest,
                };
                (
                    UpdateUserFlow::Credentials { id, username, stored_username },
                    UserAction::Ask(request),
                )
            },
            (UpdateUserFlow::User { .. }, UserEvent::Reply(UserReply::Failed(words))) => over(
                AppError::database(words),
            ),
            (
                UpdateUserFlow::Credentials { id, username, stored_username },
                UserEvent::Reply(UserReply::Done),
            ) => (
                UpdateUserFlow::ReadUser { id, username, stored_username },
                UserAction::Ask(UserRequest::PasswordById { id }),
            ),
            (
                UpdateUserFlow::Credentials { .. },
                UserEvent::Reply(UserReply::Failed(words)),
            ) => over(AppError::database(words)),
            (
                UpdateUserFlow::ReadUser { id: _, username, stored_username },
                UserEvent::Reply(UserReply::Value(stored)),
            ) => {
                let request = UserRequest::CredentialsPassword { username: username.clone() };
                (
                    UpdateUserFlow::ReadCredentials { username, stored_username, stored },
                    UserAction::Ask(request),
                )
            },
            (
                UpdateUserFlow::ReadUser { id, username: _, stored_username: _ },
                UserEvent::Reply(UserReply::Failed(words)),
            ) => {
                let message = framed(
                    "an unknown error occurred while processing your request. the user with id '",
                    decimal(id).as_str(),
                    "' has not been found in the database. please try again.",
                );
                over(not_there(words, message))
            },
            (
                UpdateUserFlow::ReadCredentials { username: _, stored_username, stored },
                UserEvent::Reply(UserReply::Value(held)),
            ) => {
                if stored == held {
                    (UpdateUserFlow::Done, UserAction::Finish(Ok(stored_username)))
                } else {
                    over(
                        AppError::detailed(
                            ErrorKind::InternalServerError,
                            "oops! update user failed. unable to update user.",
                            String::from_str(
                                "the provided password does not match the stored credentials. please contact support for assistance.",
                            ),
                        ),
                    )
                }
            },
            (
                UpdateUserFlow::ReadCredentials { username, stored_username: _, stored: _ },
                UserEvent::Reply(UserReply::Failed(words)),
            ) => over(not_there(words, user_missing(&username))),
            _ => over(AppError::protocol()),
        }
    }
}

/// What `update_user_service` comes to for a hasher that answers `hashed`.
pub open spec fn update_user_resumed(
    flow: UpdateUserFlowView,
    reply: UserReplyView,
    hashed: Result<Seq<char>, Seq<char>>,
) -> (UpdateUserFlowView, UserActionView) {
    let (waiting, asked) = update_user_next(flow, UserEventView::Reply(reply));
    match asked {
        UserActionView::Hash { password } => update_user_next(waiting, UserEventView::Hashed(hashed)),
        _ => (waiting, asked),
    }
}

/// The password that `update_user_service` has hashed on the way, if the
/// reply led to one.
pub open spec fn update_user_hashed(flow: UpdateUserFlowView, reply: UserReplyView) -> Option<
    Seq<char>,
> {
    match update_user_next(flow, UserEventView::Reply(reply)).1 {
        UserActionView::Hash { password } => Some(password),
        _ => None,
    }
}

/// Takes a change on from the store's reply: hashes the password where the
/// change asks for that, and says which request comes next or how the change
/// ended.
pub fn update_user_service(flow: UpdateUserFlow, reply: UserReply) -> (r: (
    UpdateUserFlow,
    UserAction,
))
    ensures
        !(r.1 is Hash),
        exists|hashed: Result<Seq<char>, Seq<char>>|
            {
                &&& update_user_hashed(flow@, reply@) matches Some(password) ==> hashing(
                    password,
                    hashed,
                )
                &&& (r.0@, r.1@) == #[trigger] update_user_resumed(flow@, reply@, hashed)
            },
{
    let (waiting, asked) = flow.step(UserEvent::Reply(reply));
    match asked {
        UserAction::Hash { password } => {
            let outcome = hash_with_fresh_salt(password.as_str());
            let ghost hashed = texts_view(outcome);
            let r = waiting.step(UserEvent::Hashed(outcome));
            assert((r.0@, r.1@) == update_user_resumed(flow@, reply@, hashed));
            r
        },
        other => {
            assert((waiting@, other@) == update_user_resumed(flow@, reply@, Err(Seq::empty())));
            (waiting, other)
        },
    }
}

} // verus!
