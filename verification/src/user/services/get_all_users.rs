use vstd::prelude::*;

use crate::auth::jwt::JwtAuth;
use crate::errors::{database_failure, protocol_failure, AppError, ErrorView};
use crate::user::model::{User, UserView};
use crate::user::store::{users_view, UserReply, UserReplyView, UserRequest, UserRequestView};

verus! {

/// What reading every user comes to: the users that the store found, or the
/// store's failure.
pub open spec fn got_all_users(reply: UserReplyView) -> Result<Seq<UserView>, ErrorView> {
    match reply {
        UserReplyView::Listed(users) => Ok(users),
        UserReplyView::Failed(words) => Err(database_failure(words)),
        _ => Err(protocol_failure()),
    }
}

/// The request that reads every user. Only a request that passed the guard
/// may make it.
pub fn get_all_users_request(_auth: &JwtAuth) -> (request: UserRequest)
    ensures
        request@ == UserRequestView::AllUsers,
{
    UserRequest::AllUsers
}

/// Makes of the store's reply what reading every user came to, for a
/// request that passed the guard.
pub fn get_all_users_service(_auth: &JwtAuth, reply: UserReply) -> (r: Result<Vec<User>, AppError>)
    ensures
        match r {
            Ok(users) => got_all_users(reply@) == Ok::<Seq<UserView>, ErrorView>(
                users_view(users@),
            ),
            Err(e) => got_all_users(reply@) == Err::<Seq<UserView>, ErrorView>(e@),
        },
{
    match reply {
        UserReply::Listed(users) => Ok(users),
        UserReply::Failed(words) => Err(AppError::database(words)),
        _ => Err(AppError::protocol()),
    }
}

} // verus!
