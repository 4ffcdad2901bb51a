use vstd::prelude::*;
use vstd::string::StringExecFns;

use crate::auth::constants::REFRESH_TOKEN_SECONDS;
use crate::auth::types::{
    RefreshView, ResponseRefreshToken, ResponseSignin, ServiceOkRefreshToken, ServiceOkSignin,
    SigninView,
};
use crate::errors::OK;
use crate::text::framed;

verus! {

/// How the cookie named `refresh_token` is to be set on a response.
#[derive(Debug, PartialEq, Eq)]
pub struct RefreshCookie {
    pub value: String,
    pub http_only: bool,
    pub path: String,
    /// The seconds that the cookie is to live, where it is given an age.
    pub max_age: Option<i64>,
    /// Whether the cookie is to expire at once.
    pub expires_now: bool,
}

pub ghost struct CookieView {
    pub value: Seq<char>,
    pub http_only: bool,
    pub path: Seq<char>,
    pub max_age: Option<int>,
    pub expires_now: bool,
}

impl View for RefreshCookie {
    type V = CookieView;

    open spec fn view(&self) -> CookieView {
        CookieView {
            value: self.value@,
            http_only: self.http_only,
            path: self.path@,
            max_age: match self.max_age {
                Some(age) => Some(age as int),
                None => None,
            },
            expires_now: self.expires_now,
        }
    }
}

/// A response that reports success: its status code, its message where it
/// has one, its data, and the cookie to set.
#[derive(Debug, PartialEq, Eq)]
pub struct Success<T> {
    pub code: u16,
    pub message: Option<String>,
    pub data: T,
    pub cookie: Option<RefreshCookie>,
}

/// The cookie that carries a refresh token: for scripts out of reach, good
/// for the whole site, for the given number of seconds.
pub open spec fn session_cookie(token: Seq<char>, max_age: int) -> CookieView {
    CookieView {
        value: token,
        http_only: true,
        path: "/"@,
        max_age: Some(max_age),
        expires_now: false,
    }
}

/// The cookie that takes a refresh token away: empty, and expired at once.
pub open spec fn cleared_cookie() -> CookieView {
    CookieView {
        value: Seq::empty(),
        http_only: false,
        path: "/"@,
        max_age: None,
        expires_now: true,
    }
}

/// The cookie that carries a refresh token.
pub fn cookie_for(token: String, max_age: i64) -> (cookie: RefreshCookie)
    ensures
        cookie@ == session_cookie(token@, max_age as int),
{
    RefreshCookie {
        value: token,
        http_only: true,
        path: String::from_str("/"),
        max_age: Some(max_age),
        expires_now: false,
    }
}

pub open spec fn signed_in_message(username: Seq<char>) -> Seq<char> {
    "user '"@ + username + "' has successfully logged in."@
}

pub open spec fn logged_out_message(username: Seq<char>) -> Seq<char> {
    "user '"@ + username + "' successfully logout."@
}

/// Answers a sign-in: the access token in the body, the refresh token in a
/// cookie that lives as long as the token.
pub fn signin(user: ServiceOkSignin) -> (r: Success<ResponseSignin>)
    ensures
        r.code == OK,
        r.message matches Some(m) && m@ == signed_in_message(user@.username),
        r.data@ == user@.encoded_access_token,
        r.cookie matches Some(c) && c@ == session_cookie(
            user@.encoded_refresh_token,
            REFRESH_TOKEN_SECONDS as int,
        ),
{
    let ServiceOkSignin { username, encoded_access_token, encoded_refresh_token } = user;
    Success {
        code: OK,
        message: Some(framed("user '", username.as_str(), "' has successfully logged in.")),
        data: ResponseSignin { access_token: encoded_access_token },
        cookie: Some(cookie_for(encoded_refresh_token, REFRESH_TOKEN_SECONDS)),
    }
}

/// Answers a refresh: both tokens in the body, the refresh token also in a
/// cookie that lives for the seconds the token has left.
pub fn refresh_token(token: ServiceOkRefreshToken) -> (r: Success<ResponseRefreshToken>)
    ensures
        r.code == OK,
        r.message is None,
        r.data@ == (token@.access_token, token@.refresh_token),
        r.cookie matches Some(c) && c@ == session_cookie(
            token@.refresh_token,
            token@.refresh_token_previous_max_age,
        ),
{
    let cookie = cookie_for(token.refresh_token.clone(), token.refresh_token_previous_max_age);
    Success {
        code: OK,
        message: None,
        data: ResponseRefreshToken {
            access_token: token.access_token,
            refresh_token: token.refresh_token,
        },
        cookie: Some(cookie),
    }
}

/// Answers a logout: the cookie is emptied and expires at once.
pub fn logout(user: String) -> (r: Success<()>)
    ensures
        r.code == OK,
        r.message matches Some(m) && m@ == logged_out_message(user@),
        r.cookie matches Some(c) && c@ == cleared_cookie(),
{
    let value = String::from_str("");
    proof {
        reveal_strlit("");
        assert(value@ =~= Seq::<char>::empty());
    }
    Success {
        code: OK,
        message: Some(framed("user '", user.as_str(), "' successfully logout.")),
        data: (),
        cookie: Some(
            RefreshCookie {
                value,
                http_only: false,
                path: String::from_str("/"),
                max_age: None,
                expires_now: true,
            },
        ),
    }
}

} // verus!
