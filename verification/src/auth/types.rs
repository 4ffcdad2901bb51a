use vstd::prelude::*;

verus! {

/// The claim set that a token carries: who it is about, when it was signed
/// and when it expires, in seconds since the epoch.
#[derive(Debug, PartialEq, Eq)]
pub struct Claims {
    pub username: String,
    pub iat: i64,
    pub exp: i64,
}

pub ghost struct ClaimsView {
    pub username: Seq<char>,
    pub iat: int,
    pub exp: int,
}

impl View for Claims {
    type V = ClaimsView;

    open spec fn view(&self) -> ClaimsView {
        ClaimsView { username: self.username@, iat: self.iat as int, exp: self.exp as int }
    }
}

/// What a sign-in hands back: the account and its fresh pair of tokens.
#[derive(Debug, PartialEq, Eq)]
pub struct ServiceOkSignin {
    pub username: String,
    pub encoded_access_token: String,
    pub encoded_refresh_token: String,
}

pub ghost struct SigninView {
    pub username: Seq<char>,
    pub encoded_access_token: Seq<char>,
    pub encoded_refresh_token: Seq<char>,
}

impl View for ServiceOkSignin {
    type V = SigninView;

    open spec fn view(&self) -> SigninView {
        SigninView {
            username: self.username@,
            encoded_access_token: self.encoded_access_token@,
            encoded_refresh_token: self.encoded_refresh_token@,
        }
    }
}

/// The response body of a sign-in. The refresh token travels in a cookie.
#[derive(Debug, PartialEq, Eq)]
pub struct ResponseSignin {
    pub access_token: String,
}

impl View for ResponseSignin {
    type V = Seq<char>;

    open spec fn view(&self) -> Seq<char> {
        self.access_token@
    }
}

impl ResponseSignin {
    /// The body that answers a sign-in: its access token.
    pub fn of(signin: ServiceOkSignin) -> (body: ResponseSignin)
        ensures
            body@ == signin@.encoded_access_token,
    {
        ResponseSignin { access_token: signin.encoded_access_token }
    }
}

/// What a refresh hands back: the new pair, and the seconds that the refresh
/// token has left, which is the age to give its cookie.
#[derive(Debug, PartialEq, Eq)]
pub struct ServiceOkRefreshToken {
    pub access_token: String,
    pub refresh_token: String,
    pub refresh_token_previous_max_age: i64,
}

pub ghost struct RefreshView {
    pub access_token: Seq<char>,
    pub refresh_token: Seq<char>,
    pub refresh_token_previous_max_age: int,
}

impl View for ServiceOkRefreshToken {
    type V = RefreshView;

    open spec fn view(&self) -> RefreshView {
        RefreshView {
            access_token: self.access_token@,
            refresh_token: self.refresh_token@,
            refresh_token_previous_max_age: self.refresh_token_previous_max_age as int,
        }
    }
}

/// The response body of a refresh.
#[derive(Debug, PartialEq, Eq)]
pub struct ResponseRefreshToken {
    pub access_token: String,
    pub refresh_token: String,
}

impl View for ResponseRefreshToken {
    type V = (Seq<char>, Seq<char>);

    open spec fn view(&self) -> (Seq<char>, Seq<char>) {
        (self.access_token@, self.refresh_token@)
    }
}

impl ResponseRefreshToken {
    /// The body that answers a refresh: both tokens of the new pair.
    pub fn of(refreshed: ServiceOkRefreshToken) -> (body: ResponseRefreshToken)
        ensures
            body@ == (refreshed@.access_token, refreshed@.refresh_token),
    {
        ResponseRefreshToken {
            access_token: refreshed.access_token,
            refresh_token: refreshed.refresh_token,
        }
    }
}

} // verus!
