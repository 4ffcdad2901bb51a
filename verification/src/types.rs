use vstd::prelude::*;

verus! {

/// What every operation is handed at start-up and never changes: the secret
/// that signs access tokens and the secret that signs refresh tokens.
#[derive(Clone, Debug)]
pub struct AppState {
    pub secret_access_token: String,
    pub secret_refresh_token: String,
}

pub ghost struct Secrets {
    pub access: Seq<char>,
    pub refresh: Seq<char>,
}

impl View for AppState {
    type V = Secrets;

    open spec fn view(&self) -> Secrets {
        Secrets { access: self.secret_access_token@, refresh: self.secret_refresh_token@ }
    }
}

impl AppState {
    pub fn new(secret_access_token: String, secret_refresh_token: String) -> (state: AppState)
        ensures
            state@ == (Secrets { access: secret_access_token@, refresh: secret_refresh_token@ }),
    {
        AppState { secret_access_token, secret_refresh_token }
    }
}

} // verus!
