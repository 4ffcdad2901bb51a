use vstd::prelude::*;

use crate::auth::flow::{text, texts_view};
use crate::errors::{AppError, ErrorView};
use crate::user::model::{User, UserView};

verus! {

/// What an operation on users asks of the store. Each is one keyed read or
/// one write.
#[derive(Debug, PartialEq, Eq)]
#[allow(inconsistent_fields)]
pub enum UserRequest {
    /// Whether a user has this username, this e-mail address, this phone
    /// number.
    Availability { username: String, email: Option<String>, phone_number: Option<String> },
    /// Add a user.
    InsertUser {
        username: String,
        password: String,
        full_name: Option<String>,
        email: Option<String>,
        phone_number: Option<String>,
    },
    /// Add the credentials of a user.
    InsertCredentials { username: String, password: String },
    /// The user with this id.
    UserById { id: u32 },
    /// The username of the user with this id.
    UsernameById { id: u32 },
    /// The password digest of the user with this id.
    PasswordById { id: u32 },
    /// The password digest of the user with this username.
    PasswordByUsername { username: String },
    /// The password digest in the credentials of this username.
    CredentialsPassword { username: String },
    /// The username of a user, as stored, that matches this one.
    UsernameInUse { username: String },
    /// The e-mail address of a user, as stored, that matches this one.
    EmailInUse { email: String },
    /// The phone number of a user, as stored, that matches this one.
    PhoneInUse { phone_number: String },
    /// Overwrite the user with this id.
    UpdateUser {
        id: u32,
        username: String,
        password: String,
        email: Option<String>,
        phone_number: Option<String>,
        full_name: Option<String>,
    },
    /// Overwrite the password digest in the credentials of this username.
    UpdateCredentials { username: String, password: String },
    /// Remove the user with this id.
    DeleteUser { id: u32 },
    /// Every user.
    AllUsers,
}

#[allow(inconsistent_fields)]
pub ghost enum UserRequestView {
    Availability { username: Seq<char>, email: Option<Seq<char>>, phone_number: Option<Seq<char>> },
    InsertUser {
        username: Seq<char>,
        password: Seq<char>,
        full_name: Option<Seq<char>>,
        email: Option<Seq<char>>,
        phone_number: Option<Seq<char>>,
    },
    InsertCredentials { username: Seq<char>, password: Seq<char> },
    UserById { id: u32 },
    UsernameById { id: u32 },
    PasswordById { id: u32 },
    PasswordByUsername { username: Seq<char> },
    CredentialsPassword { username: Seq<char> },
    UsernameInUse { username: Seq<char> },
    EmailInUse { email: Seq<char> },
    PhoneInUse { phone_number: Seq<char> },
    UpdateUser {
        id: u32,
        username: Seq<char>,
        password: Seq<char>,
        email: Option<Seq<char>>,
        phone_number: Option<Seq<char>>,
        full_name: Option<Seq<char>>,
    },
    UpdateCredentials { username: Seq<char>, password: Seq<char> },
    DeleteUser { id: u32 },
    AllUsers,
}

impl View for UserRequest {
    type V = UserRequestView;

    open spec fn view(&self) -> UserRequestView {
        match *self {
            UserRequest::Availability { username, email, phone_number } => UserRequestView::Availability {
                username: username@,
                email: text(email),
                phone_number: text(phone_number),
            },
            UserRequest::InsertUser {
                username,
                password,
                full_name,
                email,
                phone_number,
            } => UserRequestView::InsertUser {
                username: username@,
                password: password@,
                full_name: text(full_name),
                email: text(email),
                phone_number: text(phone_number),
            },
            UserRequest::InsertCredentials { username, password } => UserRequestView::InsertCredentials {
                username: username@,
                password: password@,
            },
            UserRequest::UserById { id } => UserRequestView::UserById { id },
            UserRequest::UsernameById { id } => UserRequestView::UsernameById { id },
            UserRequest::PasswordById { id } => UserRequestView::PasswordById { id },
            UserRequest::PasswordByUsername { username } => UserRequestView::PasswordByUsername {
                username: username@,
            },
            UserRequest::CredentialsPassword { username } => UserRequestView::CredentialsPassword {
                username: username@,
            },
            UserRequest::UsernameInUse { username } => UserRequestView::UsernameInUse {
                username: username@,
            },
            UserRequest::EmailInUse { email } => UserRequestView::EmailInUse { email: email@ },
            UserRequest::PhoneInUse { phone_number } => UserRequestView::PhoneInUse {
                phone_number: phone_number@,
            },
            UserRequest::UpdateUser {
                id,
                username,
                password,
                email,
                phone_number,
                full_name,
            } => UserRequestView::UpdateUser {
                id,
                username: username@,
                password: password@,
                email: text(email),
                phone_number: text(phone_number),
                full_name: text(full_name),
            },
            UserRequest::UpdateCredentials { username, password } => UserRequestView::UpdateCredentials {
                username: username@,
                password: password@,
            },
            UserRequest::DeleteUser { id } => UserRequestView::DeleteUser { id },
            UserRequest::AllUsers => UserRequestView::AllUsers,
        }
    }
}

/// What the store answers.
#[derive(Debug, PartialEq, Eq)]
pub enum UserReply {
    /// Which of the three is taken.
    Availability { username_exists: bool, email_exists: bool, phone_number_exists: bool },
    /// The user that a read found.
    Found(User),
    /// The users that a read found.
    Listed(Vec<User>),
    /// The one value that a read found.
    Value(String),
    /// A write went through.
    Done,
    /// A read found nothing, or the store failed: its own words.
    Failed(String),
}

pub ghost enum UserReplyView {
    Availability { username_exists: bool, email_exists: bool, phone_number_exists: bool },
    Found(UserView),
    Listed(Seq<UserView>),
    Value(Seq<char>),
    Done,
    Failed(Seq<char>),
}

pub open spec fn users_view(users: Seq<User>) -> Seq<UserView> {
    users.map_values(|u: User| u@)
}

impl View for UserReply {
    type V = UserReplyView;

    open spec fn view(&self) -> UserReplyView {
        match *self {
            UserReply::Availability {
                username_exists,
                email_exists,
                phone_number_exists,
            } => UserReplyView::Availability { username_exists, email_exists, phone_number_exists },
            UserReply::Found(user) => UserReplyView::Found(user@),
            UserReply::Listed(users) => UserReplyView::Listed(users_view(users@)),
            UserReply::Value(value) => UserReplyView::Value(value@),
            UserReply::Done => UserReplyView::Done,
            UserReply::Failed(words) => UserReplyView::Failed(words@),
        }
    }
}

/// What an operation on users is told next.
#[derive(Debug, PartialEq, Eq)]
pub enum UserEvent {
    /// The store's answer to a request.
    Reply(UserReply),
    /// What hashing a password came to: the digest, or the hasher's words.
    Hashed(Result<String, String>),
}

pub ghost enum UserEventView {
    Reply(UserReplyView),
    Hashed(Result<Seq<char>, Seq<char>>),
}

impl View for UserEvent {
    type V = UserEventView;

    open spec fn view(&self) -> UserEventView {
        match *self {
            UserEvent::Reply(reply) => UserEventView::Reply(reply@),
            UserEvent::Hashed(outcome) => UserEventView::Hashed(texts_view(outcome)),
        }
    }
}

/// What an operation on users wants done next.
#[derive(Debug, PartialEq, Eq)]
pub enum UserAction {
    /// Put this request to the store and come back with its reply.
    Ask(UserRequest),
    /// Hash this password with a fresh salt and come back with what it came
    /// to.
    Hash { password: String },
    /// The operation is over: it gives this username, or fails.
    Finish(Result<String, AppError>),
}

pub ghost enum UserActionView {
    Ask(UserRequestView),
    Hash { password: Seq<char> },
    Finish(Result<Seq<char>, ErrorView>),
}

impl View for UserAction {
    type V = UserActionView;

    open spec fn view(&self) -> UserActionView {
        match *self {
            UserAction::Ask(request) => UserActionView::Ask(request@),
            UserAction::Hash { password } => UserActionView::Hash { password: password@ },
            UserAction::Finish(result) => UserActionView::Finish(
                crate::auth::flow::result_view(result),
            ),
        }
    }
}

} // verus!
