use vstd::prelude::*;

use crate::auth::codec::{
    jwt_encoded, sealed, sign, verification, verified_view, verify, FaultView, TokenFault,
    Verified, VerifiedView,
};
use crate::auth::clock::{clock_reading, Timestamp};
use crate::auth::constants::ACCESS_TOKEN_SECONDS;
use crate::auth::flow::{result_view, text, Action, ActionView, Event, EventView};
use crate::auth::model::{Credentials, CredentialsView};
use crate::auth::store::{
    apply, by_refresh_token, by_username, lemma_found, lemma_username_at, no_row, replace_refresh,
    store_wf, username_at, CredentialStore, ReplyView, RequestView, StoreReply, StoreRequest,
};
use crate::auth::types::{Claims, ClaimsView, RefreshView, ServiceOkRefreshToken};
use crate::errors::{database_failure, failure, protocol_failure, AppError, ErrorKind, ErrorView};
use crate::types::{AppState, Secrets};

verus! {

/// Where a refresh stands: what it has asked for and is waiting on.
#[derive(Debug, PartialEq, Eq)]
pub enum RefreshFlow {
    /// Waiting for the record that holds the presented token.
    Lookup { presented: String, now: Timestamp },
    /// Waiting for what verifying the stored token came to.
    Verify { presented: String, username: String, now: Timestamp },
    /// Waiting for the new token to be written over the presented one.
    Rotate { username: String, renewed: ServiceOkRefreshToken },
    /// Waiting for the record to be read back.
    Confirm { renewed: ServiceOkRefreshToken },
    /// Over.
    Done,
}

pub ghost enum RefreshFlowView {
    Lookup { presented: Seq<char>, now: int },
    Verify { presented: Seq<char>, username: Seq<char>, now: int },
    Rotate { username: Seq<char>, renewed: RefreshView },
    Confirm { renewed: RefreshView },
    Done,
}

impl View for RefreshFlow {
    type V = RefreshFlowView;

    open spec fn view(&self) -> RefreshFlowView {
        match *self {
            RefreshFlow::Lookup { presented, now } => RefreshFlowView::Lookup {
                presented: presented@,
                now: now@,
            },
            RefreshFlow::Verify { presented, username, now } => RefreshFlowView::Verify {
                presented: presented@,
                username: username@,
                now: now@,
            },
            RefreshFlow::Rotate { username, renewed } => RefreshFlowView::Rotate {
                username: username@,
                renewed: renewed@,
            },
            RefreshFlow::Confirm { renewed } => RefreshFlowView::Confirm { renewed: renewed@ },
            RefreshFlow::Done => RefreshFlowView::Done,
        }
    }
}

pub open spec fn cookie_missing() -> ErrorView {
    failure(ErrorKind::Unauthorized, "missing or invalid refresh_token cookie"@, None)
}

pub open spec fn token_unknown(text: Seq<char>) -> ErrorView {
    failure(ErrorKind::NotFound, "refresh_token not found in the database."@, Some(text))
}

pub open spec fn signature_expired() -> ErrorView {
    failure(ErrorKind::Forbidden, "signature refresh_token is expired."@, None)
}

pub open spec fn token_undecodable(text: Seq<char>) -> ErrorView {
    failure(ErrorKind::Forbidden, "failed to decoded refresh_token"@, Some(text))
}

pub open spec fn token_expired() -> ErrorView {
    failure(ErrorKind::Forbidden, "refresh token has been expired. please log in again."@, None)
}

pub open spec fn subject_mismatch() -> ErrorView {
    failure(
        ErrorKind::Forbidden,
        "stored_username is mismatch with decoded_refresh_token_username"@,
        None,
    )
}

pub open spec fn rotation_unconfirmed() -> ErrorView {
    failure(
        ErrorKind::InternalServerError,
        "an unexpected error occurred while processing your request. refresh_token is mismatch. please try again."@,
        None,
    )
}

/// What the stored token's verification means for the refresh: the claims to
/// carry forward, or why the session cannot go on. A token is expired from
/// the second of its expiry on, whatever the verifier's leeway.
pub open spec fn refresh_check(verified: VerifiedView, username: Seq<char>, now: int) -> Result<
    ClaimsView,
    ErrorView,
> {
    match verified {
        Err(FaultView::Expired) => Err(signature_expired()),
        Err(FaultView::Invalid(text)) => Err(token_undecodable(text)),
        Ok(claims) => if now >= claims.exp {
            Err(token_expired())
        } else if claims.username != username {
            Err(subject_mismatch())
        } else {
            Ok(claims)
        },
    }
}

/// The renewed pair for an account whose refresh token expires at `exp`: an
/// access token that is good for its lifetime from `now`, and a refresh token
/// that is signed anew and expires when the old one did.
pub open spec fn refresh_mint(secrets: Secrets, username: Seq<char>, exp: int, now: int) -> RefreshView {
    RefreshView {
        access_token: jwt_encoded(username, now, now + ACCESS_TOKEN_SECONDS, secrets.access),
        refresh_token: jwt_encoded(username, now, exp, secrets.refresh),
        refresh_token_previous_max_age: exp - now,
    }
}

/// The claims that a renewed access token is signed over.
pub open spec fn renewed_access(username: Seq<char>, now: int) -> ClaimsView {
    ClaimsView { username, iat: now, exp: now + ACCESS_TOKEN_SECONDS }
}

/// The claims that a renewed refresh token is signed over: the expiry is the
/// one that was handed in.
pub open spec fn renewed_refresh(username: Seq<char>, exp: int, now: int) -> ClaimsView {
    ClaimsView { username, iat: now, exp }
}

/// Both tokens of a renewed pair are what the signer made of their claims,
/// and carry them.
pub open spec fn renewal_sealed(
    secrets: Secrets,
    username: Seq<char>,
    exp: int,
    now: int,
    renewed: RefreshView,
) -> bool {
    &&& sealed(renewed.access_token, renewed_access(username, now), secrets.access)
    &&& sealed(renewed.refresh_token, renewed_refresh(username, exp, now), secrets.refresh)
}

/// How a refresh starts: without a cookie it is over at once, with one it
/// asks for the record that holds the token.
pub open spec fn refresh_begin(cookie: Option<Seq<char>>, now: int) -> (
    RefreshFlowView,
    ActionView<RefreshView>,
) {
    match cookie {
        None => (RefreshFlowView::Done, ActionView::Finish(Err(cookie_missing()))),
        Some(presented) => (
            RefreshFlowView::Lookup { presented, now },
            ActionView::Ask(RequestView::FindByRefreshToken { token: presented }),
        ),
    }
}

/// How a refresh goes on from an answer.
pub open spec fn refresh_next(secrets: Secrets, flow: RefreshFlowView, event: EventView) -> (
    RefreshFlowView,
    ActionView<RefreshView>,
) {
    match (flow, event) {
        (
            RefreshFlowView::Lookup { presented, now },
            EventView::Reply(ReplyView::Row(record)),
        ) => match record.refresh_token {
            Some(stored) => (
                RefreshFlowView::Verify { presented, username: record.username, now },
                ActionView::Decode { token: stored },
            ),
            None => (RefreshFlowView::Done, ActionView::Finish(Err(protocol_failure()))),
        },
        (RefreshFlowView::Lookup { .. }, EventView::Reply(ReplyView::Failed(text))) => (
            RefreshFlowView::Done,
            ActionView::Finish(Err(token_unknown(text))),
        ),
        (
            RefreshFlowView::Verify { presented, username, now },
            EventView::Decoded(verified),
        ) => match refresh_check(verified, username, now) {
            Err(e) => (RefreshFlowView::Done, ActionView::Finish(Err(e))),
            Ok(claims) => {
                let renewed = refresh_mint(secrets, username, claims.exp, now);
                (
                    RefreshFlowView::Rotate { username, renewed },
                    ActionView::Ask(
                        RequestView::ReplaceRefresh {
                            old_token: presented,
                            new_token: renewed.refresh_token,
                        },
                    ),
                )
            },
        },
        (RefreshFlowView::Rotate { username, renewed }, EventView::Reply(ReplyView::Done)) => (
            RefreshFlowView::Confirm { renewed },
            ActionView::Ask(RequestView::FindByUsername { username }),
        ),
        (RefreshFlowView::Rotate { .. }, EventView::Reply(ReplyView::Failed(text))) => (
            RefreshFlowView::Done,
            ActionView::Finish(Err(database_failure(text))),
        ),
        (RefreshFlowView::Confirm { renewed }, EventView::Reply(ReplyView::Row(record))) => (
            RefreshFlowView::Done,
            ActionView::Finish(
                if record.refresh_token == Some(renewed.refresh_token) {
                    Ok(renewed)
                } else {
                    Err(rotation_unconfirmed())
                },
            ),
        ),
        (RefreshFlowView::Confirm { .. }, EventView::Reply(ReplyView::Failed(text))) => (
            RefreshFlowView::Done,
            ActionView::Finish(Err(database_failure(text))),
        ),
        _ => (RefreshFlowView::Done, ActionView::Finish(Err(protocol_failure()))),
    }
}

/// Judges the stored token by what verifying it came to, by the account it
/// was found under and by the clock.
pub fn check_stored_token(verified: Verified, username: &String, now: Timestamp) -> (r: Result<
    Claims,
    AppError,
>)
    ensures
        crate::auth::flow::result_view(r) == refresh_check(
            crate::auth::codec::verified_view(verified),
            username@,
            now@,
        ),
{
    match verified {
        Err(TokenFault::Expired) => Err(
            AppError::plain(ErrorKind::Forbidden, "signature refresh_token is expired."),
        ),
        Err(TokenFault::Invalid(text)) => Err(
            AppError::detailed(ErrorKind::Forbidden, "failed to decoded refresh_token", text),
        ),
        Ok(claims) => {
            if now.seconds() >= claims.exp {
                Err(
                    AppError::plain(
                        ErrorKind::Forbidden,
                        "refresh token has been expired. please log in again.",
                    ),
                )
            } else if claims.username != *username {
                Err(
                    AppError::plain(
                        ErrorKind::Forbidden,
                        "stored_username is mismatch with decoded_refresh_token_username",
                    ),
                )
            } else {
                Ok(claims)
            }
        },
    }
}

/// What signing came to: the token, or an internal error with the given
/// message and the signer's words.
pub fn signed(outcome: Result<String, String>, message: &str) -> (r: Result<String, AppError>)
    ensures
        match outcome {
            Ok(token) => r matches Ok(t) && t@ == token@,
            Err(text) => r matches Err(e) && e@ == failure(
                ErrorKind::InternalServerError,
                message@,
                Some(text@),
            ),
        },
{
    match outcome {
        Ok(token) => Ok(token),
        Err(text) => Err(AppError::detailed(ErrorKind::InternalServerError, message, text)),
    }
}

/// Signs the renewed pair.
pub fn mint_renewed(app_state: &AppState, username: &String, exp: i64, now: Timestamp) -> (r: Result<
    ServiceOkRefreshToken,
    AppError,
>)
    requires
        exp - now@ >= i64::MIN,
    ensures
        r matches Ok(renewed) && renewed@ == refresh_mint(app_state@, username@, exp as int, now@)
            && renewal_sealed(app_state@, username@, exp as int, now@, renewed@),
{
    let issued = now.seconds();
    let access_claims = Claims {
        username: username.clone(),
        iat: issued,
        exp: issued + ACCESS_TOKEN_SECONDS,
    };
    let access_token = signed(
        sign(&access_claims, app_state.secret_access_token.as_str()),
        "failed to encode access token",
    )?;
    let refresh_claims = Claims { username: username.clone(), iat: issued, exp };
    let refresh_token = signed(
        sign(&refresh_claims, app_state.secret_refresh_token.as_str()),
        "failed to encode refresh token",
    )?;
    Ok(
        ServiceOkRefreshToken {
            access_token,
            refresh_token,
            refresh_token_previous_max_age: exp - issued,
        },
    )
}

/// What the step on an answer has made sure of besides: where it signed a
/// renewed pair, both tokens are sealed.
pub open spec fn refresh_step_sealed(secrets: Secrets, flow: RefreshFlowView, event: EventView) -> bool {
    match (flow, event) {
        (
            RefreshFlowView::Verify { presented, username, now },
            EventView::Decoded(verified),
        ) => match refresh_check(verified, username, now) {
            Ok(claims) => renewal_sealed(
                secrets,
                username,
                claims.exp,
                now,
                refresh_mint(secrets, username, claims.exp, now),
            ),
            Err(_) => true,
        },
        _ => true,
    }
}

impl RefreshFlow {
    /// Starts a refresh for the cookie that a request carried, at a reading
    /// of the clock.
    pub fn begin(cookie: Option<String>, now: Timestamp) -> (r: (
        RefreshFlow,
        Action<ServiceOkRefreshToken>,
    ))
        ensures
            (r.0@, r.1@) == refresh_begin(text(cookie), now@),
            clock_reading(now@),
    {
        proof {
            use_type_invariant(&now);
        }
        match cookie {
            None => (
                RefreshFlow::Done,
                Action::Finish(
                    Err(
                        AppError::plain(
                            ErrorKind::Unauthorized,
                            "missing or invalid refresh_token cookie",
                        ),
                    ),
                ),
            ),
            Some(presented) => {
                let token = presented.clone();
                (
                    RefreshFlow::Lookup { presented, now },
                    Action::Ask(StoreRequest::FindByRefreshToken { token }),
                )
            },
        }
    }

    /// Takes the answer to what the refresh last asked for and says what it
    /// wants next.
    pub fn step(self, app_state: &AppState, event: Event) -> (r: (
        RefreshFlow,
        Action<ServiceOkRefreshToken>,
    ))
        ensures
            (r.0@, r.1@) == refresh_next(app_state@, self@, event@),
            refresh_step_sealed(app_state@, self@, event@),
    {
        match (self, event) {
            (RefreshFlow::Lookup { presented, now }, Event::Reply(StoreReply::Row(record))) => {
                let Credentials { username, password: _, refresh_token, max_age: _ } = record;
                match refresh_token {
                    Some(stored) => (
                        RefreshFlow::Verify { presented, username, now },
                        Action::Decode { token: stored },
                    ),
                    None => (RefreshFlow::Done, Action::Finish(Err(AppError::protocol()))),
                }
            },
            (RefreshFlow::Lookup { .. }, Event::Reply(StoreReply::Failed(text))) => (
                RefreshFlow::Done,
                Action::Finish(
                    Err(
                        AppError::detailed(
                            ErrorKind::NotFound,
                            "refresh_token not found in the database.",
                            text,
                        ),
                    ),
                ),
            ),
            (RefreshFlow::Verify { presented, username, now }, Event::Decoded(verified)) => {
                match check_stored_token(verified, &username, now) {
                    Err(e) => (RefreshFlow::Done, Action::Finish(Err(e))),
                    Ok(claims) => match mint_renewed(app_state, &username, claims.exp, now) {
                        Err(e) => (RefreshFlow::Done, Action::Finish(Err(e))),
                        Ok(renewed) => {
                            let new_token = renewed.refresh_token.clone();
                            (
                                RefreshFlow::Rotate { username, renewed },
                                Action::Ask(
                                    StoreRequest::ReplaceRefresh { old_token: presented, new_token },
                                ),
                            )
                        },
                    },
                }
            },
            (RefreshFlow::Rotate { username, renewed }, Event::Reply(StoreReply::Done)) => (
                RefreshFlow::Confirm { renewed },
                Action::Ask(StoreRequest::FindByUsername { username }),
            ),
            (RefreshFlow::Rotate { .. }, Event::Reply(StoreReply::Failed(text))) => (
                RefreshFlow::Done,
                Action::Finish(Err(AppError::database(text))),
            ),
            (RefreshFlow::Confirm { renewed }, Event::Reply(StoreReply::Row(record))) => {
                if crate::auth::store::holds_token(&record, &renewed.refresh_token) {
                    (RefreshFlow::Done, Action::Finish(Ok(renewed)))
                } else {
                    (
                        RefreshFlow::Done,
                        Action::Finish(
                            Err(
                                AppError::plain(
                                    ErrorKind::InternalServerError,
                                    "an unexpected error occurred while processing your request. refresh_token is mismatch. please try again.",
                                ),
                            ),
                        ),
                    )
                }
            },
            (RefreshFlow::Confirm { .. }, Event::Reply(StoreReply::Failed(text))) => (
                RefreshFlow::Done,
                Action::Finish(Err(AppError::database(text))),
            ),
            _ => (RefreshFlow::Done, Action::Finish(Err(AppError::protocol()))),
        }
    }
}

/// What `resume` comes to for a verifier that answers `verified`: the step
/// on the reply and, where that asks for a token to be verified, the step on
/// the verifier's answer.
pub open spec fn refresh_resumed(
    secrets: Secrets,
    flow: RefreshFlowView,
    reply: ReplyView,
    verified: VerifiedView,
) -> (RefreshFlowView, ActionView<RefreshView>) {
    let (waiting, asked) = refresh_next(secrets, flow, EventView::Reply(reply));
    match asked {
        ActionView::Decode { token } => refresh_next(secrets, waiting, EventView::Decoded(verified)),
        _ => (waiting, asked),
    }
}

/// The token that `resume` has verified on the way, if the reply led to one.
pub open spec fn refresh_probed(secrets: Secrets, flow: RefreshFlowView, reply: ReplyView) -> Option<
    Seq<char>,
> {
    match refresh_next(secrets, flow, EventView::Reply(reply)).1 {
        ActionView::Decode { token } => Some(token),
        _ => None,
    }
}

impl RefreshFlow {
    /// Takes the store's reply, verifies the stored token where the refresh
    /// asks for that, and says which request comes next or how the refresh
    /// ended.
    pub fn resume(self, app_state: &AppState, reply: StoreReply) -> (r: (
        RefreshFlow,
        Action<ServiceOkRefreshToken>,
    ))
        ensures
            !(r.1 is Decode),
            exists|verified: VerifiedView|
                {
                    &&& refresh_probed(app_state@, self@, reply@) matches Some(token)
                        ==> verification(token, app_state@.refresh, verified)
                    &&& (r.0@, r.1@) == #[trigger] refresh_resumed(
                        app_state@,
                        self@,
                        reply@,
                        verified,
                    )
                    &&& refresh_step_sealed(
                        app_state@,
                        refresh_next(app_state@, self@, EventView::Reply(reply@)).0,
                        EventView::Decoded(verified),
                    )
                },
    {
        let (waiting, asked) = self.step(app_state, Event::Reply(reply));
        match asked {
            Action::Decode { token } => {
                let verified = verify(token.as_str(), app_state.secret_refresh_token.as_str());
                let r = waiting.step(app_state, Event::Decoded(verified));
                assert((r.0@, r.1@) == refresh_resumed(
                    app_state@,
                    self@,
                    reply@,
                    verified_view(verified),
                ));
                r
            },
            other => {
                assert((waiting@, other@) == refresh_resumed(
                    app_state@,
                    self@,
                    reply@,
                    Err(FaultView::Expired),
                ));
                (waiting, other)
            },
        }
    }
}

/// What a refresh comes to, and what it leaves in the store, for a verifier
/// that answers `verified` on the stored token.
///
/// Without a cookie it is unauthorized. A token that no record holds is not
/// found, whatever the token is. A stored token that does not verify, that
/// has reached its expiry, or that names another account is forbidden. In
/// every such case the store stays as it is. Otherwise the record gets a
/// refresh token that is signed anew with the expiry of the old one, and the
/// caller gets it with a fresh access token and the seconds left.
pub open spec fn refresh_outcome(
    secrets: Secrets,
    records: Seq<CredentialsView>,
    cookie: Option<Seq<char>>,
    now: int,
    verified: VerifiedView,
) -> (Result<RefreshView, ErrorView>, Seq<CredentialsView>) {
    match cookie {
        None => (Err(cookie_missing()), records),
        Some(presented) => match by_refresh_token(records, presented) {
            None => (Err(token_unknown(no_row())), records),
            Some(record) => match refresh_check(verified, record.username, now) {
                Err(e) => (Err(e), records),
                Ok(claims) => {
                    let renewed = refresh_mint(secrets, record.username, claims.exp, now);
                    (Ok(renewed), replace_refresh(records, presented, renewed.refresh_token))
                },
            },
        },
    }
}

/// What a refresh has come to and left behind, for a verifier that answered
/// `verified` on the stored token: the outcome, and that a renewed pair is
/// sealed.
pub open spec fn refresh_post_with(
    secrets: Secrets,
    before: Seq<CredentialsView>,
    cookie: Option<Seq<char>>,
    now: int,
    verified: VerifiedView,
    result: Result<RefreshView, ErrorView>,
    after: Seq<CredentialsView>,
) -> bool {
    &&& clock_reading(now)
    &&& cookie matches Some(presented) ==> verification(presented, secrets.refresh, verified)
    &&& (result, after) == refresh_outcome(secrets, before, cookie, now, verified)
    &&& result matches Ok(renewed) ==> renewal_sealed(
        secrets,
        by_refresh_token(before, cookie->0)->0.username,
        verified->Ok_0.exp,
        now,
        renewed,
    )
}

/// What a refresh has come to and left behind, whatever the verifier
/// answered within what the token and the secret allow.
pub open spec fn refresh_post(
    secrets: Secrets,
    before: Seq<CredentialsView>,
    cookie: Option<Seq<char>>,
    now: int,
    result: Result<RefreshView, ErrorView>,
    after: Seq<CredentialsView>,
) -> bool {
    exists|verified: VerifiedView|
        refresh_post_with(secrets, before, cookie, now, verified, result, after)
}

/// After a rotation, the account that held the old token holds the new one.
pub proof fn lemma_rotated(
    records: Seq<CredentialsView>,
    old_token: Seq<char>,
    new_token: Seq<char>,
)
    requires
        store_wf(records),
        by_refresh_token(records, old_token) is Some,
    ensures
        by_username(
            replace_refresh(records, old_token, new_token),
            by_refresh_token(records, old_token)->0.username,
        ) matches Some(r) && r.refresh_token == Some(new_token),
{
    lemma_found(records, old_token);
    let record = by_refresh_token(records, old_token)->0;
    let i = choose|i: int| 0 <= i < records.len() && records[i] == record;
    let after = replace_refresh(records, old_token, new_token);
    assert(after[i].username == record.username);
    assert forall|j: int| 0 <= j < i implies (#[trigger] after[j]).username != record.username by {
        assert(records[j].username != records[i].username);
    }
    assert(username_at(after, record.username, i));
    lemma_username_at(after, record.username, i);
}

/// Refreshes the session of the cookie against the store, at a reading of the
/// clock.
pub fn refresh_token_service_at(
    app_state: &AppState,
    store: &mut CredentialStore,
    refresh_token_cookie: Option<String>,
    now: Timestamp,
) -> (r: Result<ServiceOkRefreshToken, AppError>)
    ensures
        store_wf(old(store)@),
        store_wf(final(store)@),
        refresh_post(
            app_state@,
            old(store)@,
            text(refresh_token_cookie),
            now@,
            result_view(r),
            final(store)@,
        ),
{
    proof {
        use_type_invariant(&*store);
    }
    let ghost cookie = text(refresh_token_cookie);
    let ghost before = store@;
    let ghost mut verified: VerifiedView = Err(FaultView::Expired);
    let (flow, action) = RefreshFlow::begin(refresh_token_cookie, now);
    let (flow, action) = match action {
        Action::Ask(request) => {
            let reply = store.perform(&request);
            let ghost waiting = flow@;
            let r = flow.resume(app_state, reply);
            proof {
                verified = choose|verified: VerifiedView|
                    {
                        &&& refresh_probed(app_state@, waiting, reply@) matches Some(token)
                            ==> verification(token, app_state@.refresh, verified)
                        &&& (r.0@, r.1@) == #[trigger] refresh_resumed(
                            app_state@,
                            waiting,
                            reply@,
                            verified,
                        )
                        &&& refresh_step_sealed(
                            app_state@,
                            refresh_next(app_state@, waiting, EventView::Reply(reply@)).0,
                            EventView::Decoded(verified),
                        )
                    };
            }
            r
        },
        other => (flow, other),
    };
    proof {
        if cookie is None || by_refresh_token(before, cookie->0) is None {
            verified = Err(FaultView::Expired);
        }
        if let Some(presented) = cookie {
            lemma_found(before, presented);
            if let Some(record) = by_refresh_token(before, presented) {
                assert(store@ == before);
                assert(verification(presented, app_state@.refresh, verified));
                if let Ok(claims) = refresh_check(verified, record.username, now@) {
                    let renewed = refresh_mint(app_state@, record.username, claims.exp, now@);
                    lemma_rotated(before, presented, renewed.refresh_token);
                    assert(action@ == ActionView::<RefreshView>::Ask(
                        RequestView::ReplaceRefresh {
                            old_token: presented,
                            new_token: renewed.refresh_token,
                        },
                    ));
                    assert(renewal_sealed(
                        app_state@,
                        record.username,
                        claims.exp,
                        now@,
                        renewed,
                    ));
                }
            }
        }
    }
    let (flow, action) = match action {
        Action::Ask(request) => {
            let reply = store.perform(&request);
            flow.step(app_state, Event::Reply(reply))
        },
        other => (flow, other),
    };
    let (flow, action) = match action {
        Action::Ask(request) => {
            let reply = store.perform(&request);
            flow.step(app_state, Event::Reply(reply))
        },
        other => (flow, other),
    };
    let r = match action {
        Action::Finish(result) => result,
        _ => Err(AppError::protocol()),
    };
    proof {
        use_type_invariant(&*store);
    }
    assert(refresh_post_with(
        app_state@,
        before,
        cookie,
        now@,
        verified,
        result_view(r),
        store@,
    ));
    r
}

/// Refreshes the session of the cookie against the store, by the clock.
pub fn refresh_token_service(
    app_state: &AppState,
    store: &mut CredentialStore,
    refresh_token_cookie: Option<String>,
) -> (r: Result<ServiceOkRefreshToken, AppError>)
    ensures
        store_wf(old(store)@),
        store_wf(final(store)@),
        exists|now: int| #[trigger]
            refresh_post(
                app_state@,
                old(store)@,
                text(refresh_token_cookie),
                now,
                result_view(r),
                final(store)@,
            ),
{
    let now = Timestamp::now();
    refresh_token_service_at(app_state, store, refresh_token_cookie, now)
}

} // verus!
