use vstd::prelude::*;
use vstd::string::StringExecFns;

use crate::auth::clock::{clock_reading, Timestamp};
use crate::auth::codec::{jwt_encoded, sealed, sign};
use crate::auth::constants::{ACCESS_TOKEN_SECONDS, REFRESH_TOKEN_SECONDS};
use crate::auth::flow::{result_view, Action, ActionView, Event, EventView};
use crate::auth::helpers::{
    argon2_verdict, digest_unreadable, get_user_credentials, verify_password,
};
use crate::auth::model::{
    payload_failures, payload_valid, validation_error, Credentials, CredentialsPayload,
    CredentialsView, PayloadView,
};
use crate::auth::services::refresh::signed;
use crate::auth::store::{
    by_username, holds_token, lemma_found, lemma_username_at, no_row, set_refresh, store_wf,
    username_at, CredentialStore, ReplyView, RequestView, StoreReply, StoreRequest,
};
use crate::auth::types::{Claims, ClaimsView, ServiceOkSignin, SigninView};
use crate::errors::{database_failure, failure, protocol_failure, AppError, ErrorKind, ErrorView};
use crate::types::{AppState, Secrets};

verus! {

/// Where a sign-in stands: what it has asked for and is waiting on.
#[derive(Debug, PartialEq, Eq)]
pub enum SigninFlow {
    /// Waiting for the record of the account.
    Lookup { payload: CredentialsPayload, now: Timestamp },
    /// Waiting for the refresh token to be written.
    Persist { signin: ServiceOkSignin },
    /// Waiting for the record to be read back.
    Confirm { signin: ServiceOkSignin },
    /// Over.
    Done,
}

pub ghost enum SigninFlowView {
    Lookup { payload: PayloadView, now: int },
    Persist { signin: SigninView },
    Confirm { signin: SigninView },
    Done,
}

impl View for SigninFlow {
    type V = SigninFlowView;

    open spec fn view(&self) -> SigninFlowView {
        match *self {
            SigninFlow::Lookup { payload, now } => SigninFlowView::Lookup {
                payload: payload@,
                now: now@,
            },
            SigninFlow::Persist { signin } => SigninFlowView::Persist { signin: signin@ },
            SigninFlow::Confirm { signin } => SigninFlowView::Confirm { signin: signin@ },
            SigninFlow::Done => SigninFlowView::Done,
        }
    }
}

pub open spec fn user_unknown_message(username: Seq<char>) -> Seq<char> {
    "the provided user '"@ + username
        + "' was not found in the database. please check the username or register first."@
}

pub open spec fn user_unknown(username: Seq<char>, text: Seq<char>) -> ErrorView {
    failure(ErrorKind::NotFound, user_unknown_message(username), Some(text))
}

pub open spec fn credentials_incorrect() -> ErrorView {
    failure(
        ErrorKind::Unauthorized,
        "Oops! Authentication failed. Your credentials are incorrect. Please double-check your username and password."@,
        None,
    )
}

pub open spec fn signin_unconfirmed() -> ErrorView {
    failure(ErrorKind::InternalServerError, "refresh token is mismatch or not found."@, None)
}

/// Whether the presented password opens the account: it does where it
/// matches the stored digest.
pub open spec fn authenticate(password: Seq<char>, digest: Seq<char>) -> Result<(), ErrorView> {
    match argon2_verdict(password, digest) {
        Err(text) => Err(digest_unreadable(text)),
        Ok(false) => Err(credentials_incorrect()),
        Ok(true) => Ok(()),
    }
}

/// The pair that a sign-in at `now` issues: an access token and a refresh
/// token, each good for its lifetime from `now`.
pub open spec fn signin_mint(secrets: Secrets, username: Seq<char>, now: int) -> SigninView {
    SigninView {
        username,
        encoded_access_token: jwt_encoded(
            username,
            now,
            now + ACCESS_TOKEN_SECONDS,
            secrets.access,
        ),
        encoded_refresh_token: jwt_encoded(
            username,
            now,
            now + REFRESH_TOKEN_SECONDS,
            secrets.refresh,
        ),
    }
}

/// The claims that the access token of a sign-in is signed over.
pub open spec fn issued_access(username: Seq<char>, now: int) -> ClaimsView {
    ClaimsView { username, iat: now, exp: now + ACCESS_TOKEN_SECONDS }
}

/// The claims that the refresh token of a sign-in is signed over.
pub open spec fn issued_refresh(username: Seq<char>, now: int) -> ClaimsView {
    ClaimsView { username, iat: now, exp: now + REFRESH_TOKEN_SECONDS }
}

/// Both tokens of a pair are what the signer made of their claims, and carry
/// them.
pub open spec fn pair_sealed(secrets: Secrets, now: int, signin: SigninView) -> bool {
    &&& sealed(signin.encoded_access_token, issued_access(signin.username, now), secrets.access)
    &&& sealed(signin.encoded_refresh_token, issued_refresh(signin.username, now), secrets.refresh)
}

/// How a sign-in starts: a payload that breaks a rule ends it at once, a
/// valid one asks for the record of the account.
pub open spec fn signin_begin(payload: PayloadView, now: int) -> (
    SigninFlowView,
    ActionView<SigninView>,
) {
    if payload_valid(payload) {
        (
            SigninFlowView::Lookup { payload, now },
            ActionView::Ask(RequestView::FindByUsername { username: payload.username }),
        )
    } else {
        (
            SigninFlowView::Done,
            ActionView::Finish(Err(validation_error(payload_failures(payload)))),
        )
    }
}

/// How a sign-in goes on from an answer.
pub open spec fn signin_next(secrets: Secrets, flow: SigninFlowView, event: EventView) -> (
    SigninFlowView,
    ActionView<SigninView>,
) {
    match (flow, event) {
        (
            SigninFlowView::Lookup { payload, now },
            EventView::Reply(ReplyView::Row(record)),
        ) => match authenticate(payload.password, record.password) {
            Err(e) => (SigninFlowView::Done, ActionView::Finish(Err(e))),
            Ok(()) => {
                let signin = signin_mint(secrets, payload.username, now);
                (
                    SigninFlowView::Persist { signin },
                    ActionView::Ask(
                        RequestView::SetRefresh {
                            username: payload.username,
                            token: signin.encoded_refresh_token,
                            max_age: now + REFRESH_TOKEN_SECONDS,
                        },
                    ),
                )
            },
        },
        (
            SigninFlowView::Lookup { payload, now },
            EventView::Reply(ReplyView::Failed(text)),
        ) => (SigninFlowView::Done, ActionView::Finish(Err(user_unknown(payload.username, text)))),
        (SigninFlowView::Persist { signin }, EventView::Reply(ReplyView::Done)) => (
            SigninFlowView::Confirm { signin },
            ActionView::Ask(RequestView::FindByUsername { username: signin.username }),
        ),
        (SigninFlowView::Persist { .. }, EventView::Reply(ReplyView::Failed(text))) => (
            SigninFlowView::Done,
            ActionView::Finish(Err(database_failure(text))),
        ),
        (SigninFlowView::Confirm { signin }, EventView::Reply(ReplyView::Row(record))) => (
            SigninFlowView::Done,
            ActionView::Finish(
                if record.refresh_token == Some(signin.encoded_refresh_token) {
                    Ok(signin)
                } else {
                    Err(signin_unconfirmed())
                },
            ),
        ),
        (SigninFlowView::Confirm { .. }, EventView::Reply(ReplyView::Failed(text))) => (
            SigninFlowView::Done,
            ActionView::Finish(Err(database_failure(text))),
        ),
        _ => (SigninFlowView::Done, ActionView::Finish(Err(protocol_failure()))),
    }
}

/// What the password check means for the sign-in: it goes on only where the
/// password matched.
pub fn gate(checked: Result<bool, AppError>) -> (r: Result<(), AppError>)
    ensures
        match checked {
            Ok(true) => r is Ok,
            Ok(false) => r matches Err(e) && e@ == credentials_incorrect(),
            Err(failed) => r matches Err(e) && e@ == failed@,
        },
{
    match checked {
        Ok(true) => Ok(()),
        Ok(false) => Err(
            AppError::plain(
                ErrorKind::Unauthorized,
                "Oops! Authentication failed. Your credentials are incorrect. Please double-check your username and password.",
            ),
        ),
        Err(failed) => Err(failed),
    }
}

/// The error for an account that the store does not know.
pub fn unknown_user(username: &String, text: String) -> (e: AppError)
    ensures
        e@ == user_unknown(username@, text@),
{
    let message = String::from_str("the provided user '").concat(username.as_str()).concat(
        "' was not found in the database. please check the username or register first.",
    );
    AppError::new(ErrorKind::NotFound, message, Some(text))
}

/// Signs the pair of a sign-in.
pub fn mint_pair(app_state: &AppState, username: String, now: Timestamp) -> (r: Result<
    ServiceOkSignin,
    AppError,
>)
    ensures
        r matches Ok(signin) && signin@ == signin_mint(app_state@, username@, now@) && pair_sealed(
            app_state@,
            now@,
            signin@,
        ),
{
    let issued = now.seconds();
    let access_claims = Claims {
        username: username.clone(),
        iat: issued,
        exp: issued + ACCESS_TOKEN_SECONDS,
    };
    let encoded_access_token = signed(
        sign(&access_claims, app_state.secret_access_token.as_str()),
        "failed to encode access token",
    )?;
    let refresh_claims = Claims {
        username: username.clone(),
        iat: issued,
        exp: issued + REFRESH_TOKEN_SECONDS,
    };
    let encoded_refresh_token = signed(
        sign(&refresh_claims, app_state.secret_refresh_token.as_str()),
        "failed to encode access token",
    )?;
    Ok(ServiceOkSignin { username, encoded_access_token, encoded_refresh_token })
}

/// What the step on an answer has made sure of besides: where it signed a
/// pair, both tokens are sealed.
pub open spec fn signin_step_sealed(secrets: Secrets, flow: SigninFlowView, event: EventView) -> bool {
    match (flow, event) {
        (
            SigninFlowView::Lookup { payload, now },
            EventView::Reply(ReplyView::Row(record)),
        ) => authenticate(payload.password, record.password) is Ok ==> pair_sealed(
            secrets,
            now,
            signin_mint(secrets, payload.username, now),
        ),
        _ => true,
    }
}

impl SigninFlow {
    /// Starts a sign-in for a payload, at a reading of the clock.
    pub fn begin(payload: CredentialsPayload, now: Timestamp) -> (r: (
        SigninFlow,
        Action<ServiceOkSignin>,
    ))
        ensures
            (r.0@, r.1@) == signin_begin(payload@, now@),
            clock_reading(now@),
    {
        proof {
            use_type_invariant(&now);
        }
        match payload.validate() {
            Err(e) => (SigninFlow::Done, Action::Finish(Err(e))),
            Ok(()) => {
                let request = get_user_credentials(&payload.username);
                (SigninFlow::Lookup { payload, now }, Action::Ask(request))
            },
        }
    }

    /// Takes the answer to what the sign-in last asked for and says what it
    /// wants next.
    pub fn step(self, app_state: &AppState, event: Event) -> (r: (
        SigninFlow,
        Action<ServiceOkSignin>,
    ))
        ensures
            (r.0@, r.1@) == signin_next(app_state@, self@, event@),
            signin_step_sealed(app_state@, self@, event@),
    {
        match (self, event) {
            (SigninFlow::Lookup { payload, now }, Event::Reply(StoreReply::Row(record))) => {
                let checked = verify_password(payload.password.as_str(), record.password.as_str());
                match gate(checked) {
                    Err(e) => (SigninFlow::Done, Action::Finish(Err(e))),
                    Ok(()) => match mint_pair(app_state, payload.username, now) {
                        Err(e) => (SigninFlow::Done, Action::Finish(Err(e))),
                        Ok(signin) => {
                            let request = StoreRequest::SetRefresh {
                                username: signin.username.clone(),
                                token: signin.encoded_refresh_token.clone(),
                                max_age: now.seconds() + REFRESH_TOKEN_SECONDS,
                            };
                            (SigninFlow::Persist { signin }, Action::Ask(request))
                        },
                    },
                }
            },
            (SigninFlow::Lookup { payload, now }, Event::Reply(StoreReply::Failed(text))) => (
                SigninFlow::Done,
                Action::Finish(Err(unknown_user(&payload.username, text))),
            ),
            (SigninFlow::Persist { signin }, Event::Reply(StoreReply::Done)) => {
                let username = signin.username.clone();
                (
                    SigninFlow::Confirm { signin },
                    Action::Ask(StoreRequest::FindByUsername { username }),
                )
            },
            (SigninFlow::Persist { .. }, Event::Reply(StoreReply::Failed(text))) => (
                SigninFlow::Done,
                Action::Finish(Err(AppError::database(text))),
            ),
            (SigninFlow::Confirm { signin }, Event::Reply(StoreReply::Row(record))) => {
                if holds_token(&record, &signin.encoded_refresh_token) {
                    (SigninFlow::Done, Action::Finish(Ok(signin)))
                } else {
                    (
                        SigninFlow::Done,
                        Action::Finish(
                            Err(
                                AppError::plain(
                                    ErrorKind::InternalServerError,
                                    "refresh token is mismatch or not found.",
                                ),
                            ),
                        ),
                    )
                }
            },
            (SigninFlow::Confirm { .. }, Event::Reply(StoreReply::Failed(text))) => (
                SigninFlow::Done,
                Action::Finish(Err(AppError::database(text))),
            ),
            _ => (SigninFlow::Done, Action::Finish(Err(AppError::protocol()))),
        }
    }
}

/// What a sign-in comes to, and what it leaves in the store.
///
/// A payload that breaks a rule is refused. An account that the store does
/// not know is not found. A password that does not match the stored digest is
/// unauthorized. In every such case the store stays as it is. Otherwise the
/// account's record takes the new refresh token and its expiry, over whatever
/// it held, and the caller gets the pair.
pub open spec fn signin_outcome(
    secrets: Secrets,
    records: Seq<CredentialsView>,
    payload: PayloadView,
    now: int,
) -> (Result<SigninView, ErrorView>, Seq<CredentialsView>) {
    if !payload_valid(payload) {
        (Err(validation_error(payload_failures(payload))), records)
    } else {
        match by_username(records, payload.username) {
            None => (Err(user_unknown(payload.username, no_row())), records),
            Some(record) => match authenticate(payload.password, record.password) {
                Err(e) => (Err(e), records),
                Ok(()) => {
                    let signin = signin_mint(secrets, payload.username, now);
                    (
                        Ok(signin),
                        set_refresh(
                            records,
                            payload.username,
                            signin.encoded_refresh_token,
                            now + REFRESH_TOKEN_SECONDS,
                        ),
                    )
                },
            },
        }
    }
}

/// What a sign-in has come to and left behind: the outcome, and that an
/// issued pair is sealed.
pub open spec fn signin_post(
    secrets: Secrets,
    before: Seq<CredentialsView>,
    payload: PayloadView,
    now: int,
    result: Result<SigninView, ErrorView>,
    after: Seq<CredentialsView>,
) -> bool {
    &&& clock_reading(now)
    &&& (result, after) == signin_outcome(secrets, before, payload, now)
    &&& result matches Ok(signin) ==> pair_sealed(secrets, now, signin)
}

/// After a sign-in has written its token, the account holds that token and
/// its expiry.
pub proof fn lemma_persisted(
    records: Seq<CredentialsView>,
    username: Seq<char>,
    token: Seq<char>,
    max_age: int,
)
    requires
        by_username(records, username) is Some,
    ensures
        by_username(set_refresh(records, username, token, max_age), username) matches Some(r)
            && r.refresh_token == Some(token) && r.max_age == Some(max_age),
{
    let i = choose|i: int| username_at(records, username, i);
    let after = set_refresh(records, username, token, max_age);
    assert forall|j: int| 0 <= j < i implies (#[trigger] after[j]).username != username by {
        assert(records[j].username != username);
    }
    assert(username_at(after, username, i));
    lemma_username_at(after, username, i);
}

/// Signs the account of the payload in against the store, at a reading of
/// the clock.
pub fn signin_service_at(
    app_state: &AppState,
    store: &mut CredentialStore,
    payload: CredentialsPayload,
    now: Timestamp,
) -> (r: Result<ServiceOkSignin, AppError>)
    ensures
        store_wf(old(store)@),
        store_wf(final(store)@),
        signin_post(app_state@, old(store)@, payload@, now@, result_view(r), final(store)@),
{
    proof {
        use_type_invariant(&*store);
    }
    let ghost before = store@;
    let (flow, action) = SigninFlow::begin(payload, now);
    let (flow, action) = match action {
        Action::Ask(request) => {
            let reply = store.perform(&request);
            flow.step(app_state, Event::Reply(reply))
        },
        other => (flow, other),
    };
    proof {
        if payload_valid(payload@) && by_username(before, payload@.username) is Some {
            lemma_persisted(
                before,
                payload@.username,
                signin_mint(app_state@, payload@.username, now@).encoded_refresh_token,
                now@ + REFRESH_TOKEN_SECONDS,
            );
        }
    }
    let (flow, action) = match action {
        Action::Ask(request) => {
            let reply = store.perform(&request);
            flow.step(app_state, Event::Reply(reply))
        },
        other => (flow, other),
    };
    let (flow, action) = match action {
        Action::Ask(request) => {
            let reply = store.perform(&request);
            flow.step(app_state, Event::Reply(reply))
        },
        other => (flow, other),
    };
    proof {
        use_type_invariant(&*store);
    }
    match action {
        Action::Finish(result) => result,
        _ => Err(AppError::protocol()),
    }
}

/// Signs the account of the payload in against the store, by the clock.
pub fn signin_service(
    app_state: &AppState,
    store: &mut CredentialStore,
    payload: CredentialsPayload,
) -> (r: Result<ServiceOkSignin, AppError>)
    ensures
        store_wf(old(store)@),
        store_wf(final(store)@),
        exists|now: int| #[trigger]
            signin_post(
                app_state@,
                old(store)@,
                payload@,
                now,
                result_view(r),
                final(store)@,
            ),
{
    let now = Timestamp::now();
    signin_service_at(app_state, store, payload, now)
}

} // verus!
