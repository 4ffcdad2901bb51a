use vstd::prelude::*;
use vstd::string::StringExecFns;

use crate::auth::handler::Success;
use crate::auth::jwt::JwtAuth;
use crate::errors::{CREATED, OK};
use crate::text::framed;
use crate::user::model::User;

verus! {

/// The data of a response that lists users: the users and how many they
/// are.
#[derive(Debug, PartialEq, Eq)]
pub struct Listing {
    pub users: Vec<User>,
    pub length: usize,
}

pub open spec fn registered_message(username: Seq<char>) -> Seq<char> {
    "registration user '"@ + username + "' successfully! your account has been created."@
}

pub open spec fn updated_message(username: Seq<char>) -> Seq<char> {
    "user '"@ + username + "' has been successfully updated."@
}

pub open spec fn deleted_message(username: Seq<char>) -> Seq<char> {
    "user '"@ + username + "' has been successfully deleted."@
}

/// Answers a request for every user, for a request that passed the guard.
pub fn get_all_users(_auth: &JwtAuth, users: Vec<User>) -> (r: Success<Listing>)
    ensures
        r.code == OK,
        r.message matches Some(m) && m@ == "successfully retrieved all users data."@,
        r.data.users == users,
        r.data.length == users@.len(),
        r.cookie is None,
{
    let length = users.len();
    Success {
        code: OK,
        message: Some(String::from_str("successfully retrieved all users data.")),
        data: Listing { users, length },
        cookie: None,
    }
}

/// Answers a request for one user, for a request that passed the guard.
pub fn get_user(_auth: &JwtAuth, user: User) -> (r: Success<User>)
    ensures
        r.code == OK,
        r.message matches Some(m) && m@ == "user data retrieved successfully."@,
        r.data == user,
        r.cookie is None,
{
    Success {
        code: OK,
        message: Some(String::from_str("user data retrieved successfully.")),
        data: user,
        cookie: None,
    }
}

/// Answers a registration.
pub fn insert_user(user: String) -> (r: Success<()>)
    ensures
        r.code == CREATED,
        r.message matches Some(m) && m@ == registered_message(user@),
        r.cookie is None,
{
    Success {
        code: CREATED,
        message: Some(
            framed(
                "registration user '",
                user.as_str(),
                "' successfully! your account has been created.",
            ),
        ),
        data: (),
        cookie: None,
    }
}

/// Answers a change, for a request that passed the guard.
pub fn update_user(_auth: &JwtAuth, user: String) -> (r: Success<()>)
    ensures
        r.code == OK,
        r.message matches Some(m) && m@ == updated_message(user@),
        r.cookie is None,
{
    Success {
        code: OK,
        message: Some(framed("user '", user.as_str(), "' has been successfully updated.")),
        data: (),
        cookie: None,
    }
}

/// Answers a removal, for a request that passed the guard.
pub fn delete_user(_auth: &JwtAuth, user: String) -> (r: Success<()>)
    ensures
        r.code == OK,
        r.message matches Some(m) && m@ == deleted_message(user@),
        r.cookie is None,
{
    Success {
        code: OK,
        message: Some(framed("user '", user.as_str(), "' has been successfully deleted.")),
        data: (),
        cookie: None,
    }
}

} // verus!
