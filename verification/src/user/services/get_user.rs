use vstd::prelude::*;

use crate::errors::{protocol_failure, AppError, ErrorView};
use crate::text::{decimal, digits, framed};
use crate::user::helpers::missing;
use crate::user::model::{User, UserView};
use crate::user::services::update_user::not_there;
use crate::user::store::{UserReply, UserReplyView, UserRequest, UserRequestView};

verus! {

pub open spec fn user_not_found_message(id: u32) -> Seq<char> {
    "user with id '"@ + digits(id as nat) + "' not found"@
}

/// What reading a user comes to: the user that the store found, or not
/// found with the store's words.
pub open spec fn got_user(id: u32, reply: UserReplyView) -> Result<UserView, ErrorView> {
    match reply {
        UserReplyView::Found(user) => Ok(user),
        UserReplyView::Failed(words) => Err(missing(words, Some(user_not_found_message(id)), None)),
        _ => Err(protocol_failure()),
    }
}

/// The request that reads the user with this id.
pub fn get_user_request(id: u32) -> (request: UserRequest)
    ensures
        request@ == (UserRequestView::UserById { id }),
{
    UserRequest::UserById { id }
}

/// Makes of the store's reply what reading the user with this id came to.
pub fn get_user_service(user_id_params: u32, reply: UserReply) -> (r: Result<User, AppError>)
    ensures
        match r {
            Ok(user) => got_user(user_id_params, reply@) == Ok::<UserView, ErrorView>(user@),
            Err(e) => got_user(user_id_params, reply@) == Err::<UserView, ErrorView>(e@),
        },
{
    match reply {
        UserReply::Found(user) => Ok(user),
        UserReply::Failed(words) => {
            let message = framed("user with id '", decimal(user_id_params).as_str(), "' not found");
            Err(not_there(words, message))
        },
        _ => Err(AppError::protocol()),
    }
}

} // verus!
