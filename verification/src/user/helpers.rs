use vstd::prelude::*;
use vstd::string::StringExecFns;

use crate::errors::{
    database_failure, protocol_failure, status_code, AppError, AppErrorMessage, DetailsView,
    ErrorDetails, ErrorKind, ErrorView, MessageView, NOT_FOUND,
};
use crate::user::store::{UserReply, UserReplyView};

verus! {

/// Whether a read found anything.
pub fn check_user(reply: &UserReply) -> (found: bool)
    ensures
        found == !(reply@ is Failed),
{
    match reply {
        UserReply::Failed(_) => false,
        _ => true,
    }
}

/// What the store's answer on availability means: which of username, e-mail
/// address and phone number are taken.
pub open spec fn availability(reply: UserReplyView) -> Result<(bool, bool, bool), ErrorView> {
    match reply {
        UserReplyView::Availability { username_exists, email_exists, phone_number_exists } => Ok(
            (username_exists, email_exists, phone_number_exists),
        ),
        UserReplyView::Failed(words) => Err(database_failure(words)),
        _ => Err(protocol_failure()),
    }
}

/// Reads the store's answer on availability.
pub fn check_user_insert_availability(reply: UserReply) -> (r: Result<(bool, bool, bool), AppError>)
    ensures
        match r {
            Ok(taken) => availability(reply@) == Ok::<(bool, bool, bool), ErrorView>(taken),
            Err(e) => availability(reply@) == Err::<(bool, bool, bool), ErrorView>(e@),
        },
{
    match reply {
        UserReply::Availability { username_exists, email_exists, phone_number_exists } => Ok(
            (username_exists, email_exists, phone_number_exists),
        ),
        UserReply::Failed(words) => Err(AppError::database(words)),
        _ => Err(AppError::protocol()),
    }
}

/// The error for a read that found nothing: not found with the given
/// message, or, where a status code is given, an internal error with that
/// code.
pub open spec fn missing(words: Seq<char>, message: Option<Seq<char>>, code: Option<u16>) -> ErrorView {
    ErrorView {
        kind: if code is Some {
            ErrorKind::InternalServerError
        } else {
            ErrorKind::NotFound
        },
        body: MessageView {
            code: match code {
                Some(c) => c,
                None => NOT_FOUND,
            },
            message: match message {
                Some(m) => m,
                None => "Empty String"@,
            },
            details: Some(DetailsView::Text(words)),
        },
    }
}

/// Takes what a read found, or reports that it found nothing.
pub fn get_stored_user(reply: UserReply, message: Option<String>, code: Option<u16>) -> (r: Result<
    UserReply,
    AppError,
>)
    ensures
        match reply {
            UserReply::Failed(words) => r matches Err(e) && e@ == missing(
                words@,
                crate::auth::flow::text(message),
                code,
            ),
            _ => r == Ok::<UserReply, AppError>(reply),
        },
{
    match reply {
        UserReply::Failed(words) => {
            let body = AppErrorMessage {
                code: match code {
                    Some(c) => c,
                    None => NOT_FOUND,
                },
                message: match message {
                    Some(m) => m,
                    None => String::from_str("Empty String"),
                },
                details: Some(ErrorDetails::Text(words)),
            };
            match code {
                Some(_) => Err(AppError::InternalServerError(body)),
                None => Err(AppError::NotFound(body)),
            }
        },
        other => Ok(other),
    }
}

} // verus!
