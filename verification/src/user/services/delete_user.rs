use vstd::prelude::*;

use crate::errors::{failure, protocol_failure, AppError, ErrorKind, ErrorView};
use crate::text::{decimal, digits, framed};
use crate::user::helpers::missing;
use crate::user::model::User;
use crate::user::services::update_user::not_there;
use crate::user::store::{
    UserAction, UserActionView, UserEvent, UserEventView, UserReply, UserReplyView, UserRequest,
    UserRequestView,
};

verus! {

/// Where the removal of a user stands: what it has asked for and is waiting
/// on.
#[derive(Debug, PartialEq, Eq)]
pub enum DeleteUserFlow {
    /// Waiting for the user as stored.
    Stored { id: u32 },
    /// Waiting for the user to be removed.
    Delete { id: u32, username: String },
    /// Waiting to hear that the user is gone.
    Probe { username: String },
    /// Over.
    Done,
}

pub ghost enum DeleteUserFlowView {
    Stored { id: u32 },
    Delete { id: u32, username: Seq<char> },
    Probe { username: Seq<char> },
    Done,
}

impl View for DeleteUserFlow {
    type V = DeleteUserFlowView;

    open spec fn view(&self) -> DeleteUserFlowView {
        match *self {
            DeleteUserFlow::Stored { id } => DeleteUserFlowView::Stored { id },
            DeleteUserFlow::Delete { id, username } => DeleteUserFlowView::Delete {
                id,
                username: username@,
            },
            DeleteUserFlow::Probe { username } => DeleteUserFlowView::Probe { username: username@ },
            DeleteUserFlow::Done => DeleteUserFlowView::Done,
        }
    }
}

pub open spec fn id_not_found_message(id: u32) -> Seq<char> {
    "user with id '"@ + digits(id as nat) + "' not found."@
}

pub open spec fn user_remains(username: Seq<char>) -> ErrorView {
    failure(
        ErrorKind::InternalServerError,
        "an unexpected error occurred while processing your request. user '"@ + username
            + "' still exists in the database. please try again."@,
        None,
    )
}

/// How a removal starts: it asks for the user as stored.
pub open spec fn delete_user_begin(id: u32) -> (DeleteUserFlowView, UserActionView) {
    (DeleteUserFlowView::Stored { id }, UserActionView::Ask(UserRequestView::UserById { id }))
}

pub open spec fn delete_user_over(error: ErrorView) -> (DeleteUserFlowView, UserActionView) {
    (DeleteUserFlowView::Done, UserActionView::Finish(Err(error)))
}

/// How a removal goes on from an answer. Whether the store says that it
/// removed the user or that it failed, the removal looks for the user again:
/// only a user that is gone counts.
pub open spec fn delete_user_next(flow: DeleteUserFlowView, event: UserEventView) -> (
    DeleteUserFlowView,
    UserActionView,
) {
    match (flow, event) {
        (
            DeleteUserFlowView::Stored { id },
            UserEventView::Reply(UserReplyView::Found(stored)),
        ) => (
            DeleteUserFlowView::Delete { id, username: stored.username },
            UserActionView::Ask(UserRequestView::DeleteUser { id }),
        ),
        (
            DeleteUserFlowView::Stored { id },
            UserEventView::Reply(UserReplyView::Failed(words)),
        ) => delete_user_over(missing(words, Some(id_not_found_message(id)), None)),
        (DeleteUserFlowView::Delete { id, username }, UserEventView::Reply(UserReplyView::Done)) => (
            DeleteUserFlowView::Probe { username },
            UserActionView::Ask(UserRequestView::UsernameById { id }),
        ),
        (
            DeleteUserFlowView::Delete { id, username },
            UserEventView::Reply(UserReplyView::Failed(_)),
        ) => (
            DeleteUserFlowView::Probe { username },
            UserActionView::Ask(UserRequestView::UsernameById { id }),
        ),
        (
            DeleteUserFlowView::Probe { .. },
            UserEventView::Reply(UserReplyView::Value(held)),
        ) => delete_user_over(user_remains(held)),
        (
            DeleteUserFlowView::Probe { username },
            UserEventView::Reply(UserReplyView::Failed(_)),
        ) => (DeleteUserFlowView::Done, UserActionView::Finish(Ok(username))),
        _ => delete_user_over(protocol_failure()),
    }
}

/// Ends the operation with an error.
pub fn over(error: AppError) -> (r: (DeleteUserFlow, UserAction))
    ensures
        (r.0@, r.1@) == delete_user_over(error@),
{
    (DeleteUserFlow::Done, UserAction::Finish(Err(error)))
}

impl DeleteUserFlow {
    /// Starts the removal of the user with this id.
    pub fn begin(id: u32) -> (r: (DeleteUserFlow, UserAction))
        ensures
            (r.0@, r.1@) == delete_user_begin(id),
    {
        (DeleteUserFlow::Stored { id }, UserAction::Ask(UserRequest::UserById { id }))
    }
}

/// Takes a removal on from the store's reply and says which request comes
/// next or how the removal ended.
pub fn delete_user_service(flow: DeleteUserFlow, reply: UserReply) -> (r: (
    DeleteUserFlow,
    UserAction,
))
    ensures
        (r.0@, r.1@) == delete_user_next(flow@, UserEventView::Reply(reply@)),
{
    match (flow, reply) {
        (DeleteUserFlow::Stored { id }, UserReply::Found(stored)) => (
            DeleteUserFlow::Delete { id, username: stored.username },
            UserAction::Ask(UserRequest::DeleteUser { id }),
        ),
        (DeleteUserFlow::Stored { id }, UserReply::Failed(words)) => {
            let message = framed("user with id '", decimal(id).as_str(), "' not found.");
            over(not_there(words, message))
        },
        (DeleteUserFlow::Delete { id, username }, UserReply::Done) => (
            DeleteUserFlow::Probe { username },
            UserAction::Ask(UserRequest::UsernameById { id }),
        ),
        (DeleteUserFlow::Delete { id, username }, UserReply::Failed(_)) => (
            DeleteUserFlow::Probe { username },
            UserAction::Ask(UserRequest::UsernameById { id }),
        ),
        (DeleteUserFlow::Probe { username: _ }, UserReply::Value(held)) => {
            let message = framed(
                "an unexpected error occurred while processing your request. user '",
                held.as_str(),
                "' still exists in the database. please try again.",
            );
            over(AppError::new(ErrorKind::InternalServerError, message, None))
        },
        (DeleteUserFlow::Probe { username }, UserReply::Failed(_)) => (
            DeleteUserFlow::Done,
            UserAction::Finish(Ok(username)),
        ),
        _ => over(AppError::protocol()),
    }
}

} // verus!
