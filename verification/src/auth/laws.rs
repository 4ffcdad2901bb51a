use vstd::prelude::*;

use crate::auth::clock::clock_reading;
use crate::auth::codec::{sealed, token_claims, verification, FaultView, VerifiedView};
use crate::auth::constants::{ACCESS_TOKEN_SECONDS, REFRESH_TOKEN_SECONDS};
use crate::auth::helpers::{argon2_verdict, hashing};
use crate::auth::jwt::{
    guard_check, guard_outcome, guard_token, law_bearer_header, token_missing,
};
use crate::auth::model::{payload_valid, CredentialsView, PayloadView};
use crate::auth::services::logout::{
    already_logged_out, lemma_cleared, logout_begin, logout_next, logout_outcome, LogoutFlowView,
};
use crate::auth::flow::{ActionView, EventView};
use crate::auth::services::refresh::{
    lemma_rotated, refresh_begin, refresh_check, refresh_mint, refresh_next, refresh_outcome,
    refresh_post,
    refresh_post_with, renewal_sealed, rotation_unconfirmed, signature_expired, subject_mismatch,
    token_unknown, RefreshFlowView,
};
use crate::auth::services::signup::{
    lemma_registered, signup_begin, signup_next, signup_outcome, signup_post, SignupFlowView,
};
use crate::auth::services::signin::{
    authenticate, credentials_incorrect, lemma_persisted, pair_sealed, signin_begin, signin_mint,
    signin_next, signin_outcome, signin_post, SigninFlowView,
};
use crate::auth::store::{
    apply, by_refresh_token, by_username, clear_refresh, fresh_record, lemma_apply_wf,
    lemma_found, lemma_token_absent, no_row, replace_refresh, set_refresh, store_wf, RequestView,
};
use crate::auth::types::{ClaimsView, RefreshView, SigninView};
use crate::errors::{protocol_failure, ErrorKind, ErrorView};
use crate::types::Secrets;

verus! {

/// A sign-in with a valid payload and the password of the account succeeds,
/// and the account is then found holding just the refresh token that the
/// sign-in returned, with the expiry that the token was signed over.
pub proof fn law_signin_stores_its_token(
    secrets: Secrets,
    before: Seq<CredentialsView>,
    payload: PayloadView,
    now: int,
    result: Result<SigninView, ErrorView>,
    after: Seq<CredentialsView>,
)
    requires
        signin_post(secrets, before, payload, now, result, after),
        payload_valid(payload),
        by_username(before, payload.username) matches Some(record) && argon2_verdict(
            payload.password,
            record.password,
        ) == Ok::<bool, Seq<char>>(true),
    ensures
        result matches Ok(signin) && signin.username == payload.username && (by_username(
            after,
            payload.username,
        ) matches Some(record) && record.refresh_token == Some(signin.encoded_refresh_token)
            && record.max_age == Some(now + REFRESH_TOKEN_SECONDS)),
{
    let signin = signin_mint(secrets, payload.username, now);
    lemma_persisted(
        before,
        payload.username,
        signin.encoded_refresh_token,
        now + REFRESH_TOKEN_SECONDS,
    );
}

/// An account that has registered can sign in with the payload that it
/// registered with.
pub proof fn law_signup_then_signin(
    secrets: Secrets,
    before: Seq<CredentialsView>,
    payload: PayloadView,
    username: Seq<char>,
    registered: Seq<CredentialsView>,
    now: int,
    result: Result<SigninView, ErrorView>,
    after: Seq<CredentialsView>,
)
    requires
        signup_post(before, payload, Ok(username), registered),
        signin_post(secrets, registered, payload, now, result, after),
    ensures
        username == payload.username,
        result matches Ok(signin) && signin.username == username,
        session_mirrored(by_username(after, username)->0, secrets.refresh),
{
    let hashed = choose|hashed: Result<Seq<char>, Seq<char>>|
        {
            &&& payload_valid(payload) && by_username(before, payload.username) is None
                ==> hashing(payload.password, hashed)
            &&& (Ok::<Seq<char>, ErrorView>(username), registered) == #[trigger] signup_outcome(
                before,
                payload,
                hashed,
            )
        };
    lemma_registered(before, fresh_record(payload.username, hashed->Ok_0));
    law_signin_stores_its_token(secrets, registered, payload, now, result, after);
}

/// A registration adds an account without a session, so it keeps every
/// session mirrored.
pub proof fn law_signup_keeps_mirror(
    secret: Seq<char>,
    before: Seq<CredentialsView>,
    payload: PayloadView,
    result: Result<Seq<char>, ErrorView>,
    after: Seq<CredentialsView>,
)
    requires
        store_mirrored(before, secret),
        signup_post(before, payload, result, after),
    ensures
        store_mirrored(after, secret),
{
    assert forall|i: int| 0 <= i < after.len() implies session_mirrored(
        #[trigger] after[i],
        secret,
    ) by {
        if i < before.len() {
            assert(session_mirrored(before[i], secret));
        }
    }
}

/// A sign-in with a wrong password is unauthorized and leaves the store as
/// it was.
pub proof fn law_wrong_password_changes_nothing(
    secrets: Secrets,
    before: Seq<CredentialsView>,
    payload: PayloadView,
    now: int,
)
    requires
        payload_valid(payload),
        by_username(before, payload.username) matches Some(record) && argon2_verdict(
            payload.password,
            record.password,
        ) == Ok::<bool, Seq<char>>(false),
    ensures
        signin_outcome(secrets, before, payload, now) == (
            Err::<SigninView, ErrorView>(credentials_incorrect()),
            before,
        ),
        credentials_incorrect().kind == ErrorKind::Unauthorized,
{
}

/// An operation that fails leaves the store as it was.
pub proof fn law_failure_changes_nothing(
    secrets: Secrets,
    before: Seq<CredentialsView>,
    payload: PayloadView,
    cookie: Option<Seq<char>>,
    now: int,
    verified: VerifiedView,
)
    ensures
        signin_outcome(secrets, before, payload, now).0 is Err ==> signin_outcome(
            secrets,
            before,
            payload,
            now,
        ).1 == before,
        refresh_outcome(secrets, before, cookie, now, verified).0 is Err ==> refresh_outcome(
            secrets,
            before,
            cookie,
            now,
            verified,
        ).1 == before,
        logout_outcome(before, cookie).0 is Err ==> logout_outcome(before, cookie).1 == before,
{
}

/// One refresh that succeeded, by the time it ran at, the pair it returned
/// and the store it left.
pub ghost struct Rotation {
    pub now: int,
    pub renewed: RefreshView,
    pub after: Seq<CredentialsView>,
}

/// A run of refreshes that each succeeded, the first on `token` against
/// `records`, each of the others on the refresh token that the one before it
/// returned, against the store that it left.
pub open spec fn rotations(
    secrets: Secrets,
    records: Seq<CredentialsView>,
    token: Seq<char>,
    calls: Seq<Rotation>,
) -> bool
    decreases calls.len(),
{
    calls.len() == 0 || {
        &&& refresh_post(
            secrets,
            records,
            Some(token),
            calls[0].now,
            Ok(calls[0].renewed),
            calls[0].after,
        )
        &&& rotations(secrets, calls[0].after, calls[0].renewed.refresh_token, calls.drop_first())
    }
}

/// A refresh that succeeds ran before the expiry of the token it was given,
/// and returns a refresh token with the same account and the same expiry.
pub proof fn law_rotation_keeps_expiry(
    secrets: Secrets,
    before: Seq<CredentialsView>,
    token: Seq<char>,
    claims: ClaimsView,
    now: int,
    renewed: RefreshView,
    after: Seq<CredentialsView>,
)
    requires
        token_claims(token, secrets.refresh) == Some(claims),
        refresh_post(secrets, before, Some(token), now, Ok(renewed), after),
    ensures
        now < claims.exp,
        token_claims(renewed.refresh_token, secrets.refresh) == Some(
            ClaimsView { username: claims.username, iat: now, exp: claims.exp },
        ),
        renewed.refresh_token_previous_max_age == claims.exp - now,
{
    let verified = choose|verified: VerifiedView|
        refresh_post_with(secrets, before, Some(token), now, verified, Ok(renewed), after);
    let record = by_refresh_token(before, token)->0;
    assert(refresh_check(verified, record.username, now) is Ok);
}

/// However often a session is refreshed, each time with the refresh token
/// that the refresh before returned, every refresh token that comes back
/// expires when the first one did, and every refresh ran before that.
pub proof fn law_expiry_anchored(
    secrets: Secrets,
    records: Seq<CredentialsView>,
    token: Seq<char>,
    claims: ClaimsView,
    calls: Seq<Rotation>,
    i: int,
)
    requires
        token_claims(token, secrets.refresh) == Some(claims),
        rotations(secrets, records, token, calls),
        0 <= i < calls.len(),
    ensures
        calls[i].now < claims.exp,
        token_claims(calls[i].renewed.refresh_token, secrets.refresh) matches Some(c) && c.exp
            == claims.exp && c.username == claims.username,
    decreases calls.len(),
{
    law_rotation_keeps_expiry(
        secrets,
        records,
        token,
        claims,
        calls[0].now,
        calls[0].renewed,
        calls[0].after,
    );
    if i > 0 {
        let next = ClaimsView { username: claims.username, iat: calls[0].now, exp: claims.exp };
        law_expiry_anchored(
            secrets,
            calls[0].after,
            calls[0].renewed.refresh_token,
            next,
            calls.drop_first(),
            i - 1,
        );
    }
}

/// From the second of its expiry on, a refresh token that the store holds is
/// forbidden, and the store stays as it was.
pub proof fn law_refresh_forbidden_from_expiry(
    secrets: Secrets,
    before: Seq<CredentialsView>,
    token: Seq<char>,
    claims: ClaimsView,
    now: int,
    result: Result<RefreshView, ErrorView>,
    after: Seq<CredentialsView>,
)
    requires
        refresh_post(secrets, before, Some(token), now, result, after),
        by_refresh_token(before, token) is Some,
        token_claims(token, secrets.refresh) == Some(claims),
        now >= claims.exp,
    ensures
        result matches Err(e) && e.kind == ErrorKind::Forbidden,
        after == before,
{
}

/// A stored token that carries no complete claim set for the refresh secret
/// is forbidden.
pub proof fn law_refresh_forbidden_without_claims(
    secrets: Secrets,
    before: Seq<CredentialsView>,
    token: Seq<char>,
    now: int,
    result: Result<RefreshView, ErrorView>,
    after: Seq<CredentialsView>,
)
    requires
        refresh_post(secrets, before, Some(token), now, result, after),
        by_refresh_token(before, token) is Some,
        token_claims(token, secrets.refresh) is None,
    ensures
        result matches Err(e) && e.kind == ErrorKind::Forbidden,
        after == before,
{
}

/// A refresh with a token that no record holds is not found, whatever the
/// token is and whatever verifying it would come to.
pub proof fn law_unknown_token_not_found(
    secrets: Secrets,
    before: Seq<CredentialsView>,
    token: Seq<char>,
    now: int,
    result: Result<RefreshView, ErrorView>,
    after: Seq<CredentialsView>,
)
    requires
        refresh_post(secrets, before, Some(token), now, result, after),
        by_refresh_token(before, token) is None,
    ensures
        result == Err::<RefreshView, ErrorView>(token_unknown(no_row())),
        token_unknown(no_row()).kind == ErrorKind::NotFound,
        after == before,
{
}

/// Of two refreshes that run at once on one token and sign different
/// tokens, the one that writes second changes nothing, and when each reads
/// the record back the first finds its token and the second does not: it
/// ends in an internal error.
pub proof fn law_second_rotation_is_refused(
    secrets: Secrets,
    records: Seq<CredentialsView>,
    username: Seq<char>,
    token: Seq<char>,
    first: RefreshView,
    second: RefreshView,
)
    requires
        store_wf(records),
        by_refresh_token(records, token) matches Some(record) && record.username == username,
        first.refresh_token != token,
        first.refresh_token != second.refresh_token,
    ensures
        ({
            let after_first = apply(
                records,
                RequestView::ReplaceRefresh { old_token: token, new_token: first.refresh_token },
            ).0;
            let after_second = apply(
                after_first,
                RequestView::ReplaceRefresh { old_token: token, new_token: second.refresh_token },
            ).0;
            let read_back = EventView::Reply(
                apply(after_second, RequestView::FindByUsername { username }).1,
            );
            &&& after_second == after_first
            &&& refresh_next(secrets, RefreshFlowView::Confirm { renewed: first }, read_back).1
                == ActionView::Finish(Ok::<RefreshView, ErrorView>(first))
            &&& refresh_next(secrets, RefreshFlowView::Confirm { renewed: second }, read_back).1
                == ActionView::Finish(Err::<RefreshView, ErrorView>(rotation_unconfirmed()))
        }),
{
    let after_first = replace_refresh(records, token, first.refresh_token);
    lemma_rotated(records, token, first.refresh_token);
    assert forall|j: int| 0 <= j < after_first.len() implies (#[trigger] after_first[j]).refresh_token
        != Some(token) by {}
    assert(replace_refresh(after_first, token, second.refresh_token) =~= after_first);
}

/// A refresh without a cookie is unauthorized.
pub proof fn law_refresh_needs_cookie(
    secrets: Secrets,
    before: Seq<CredentialsView>,
    now: int,
    result: Result<RefreshView, ErrorView>,
    after: Seq<CredentialsView>,
)
    requires
        refresh_post(secrets, before, None, now, result, after),
    ensures
        result matches Err(e) && e.kind == ErrorKind::Unauthorized,
        after == before,
{
}

/// After a logout, a refresh with the token that was logged out is not
/// found.
pub proof fn law_logout_ends_the_session(
    secrets: Secrets,
    before: Seq<CredentialsView>,
    token: Seq<char>,
    username: Seq<char>,
    cleared: Seq<CredentialsView>,
    now: int,
    result: Result<RefreshView, ErrorView>,
    after: Seq<CredentialsView>,
)
    requires
        logout_outcome(before, Some(token)) == (Ok::<Seq<char>, ErrorView>(username), cleared),
        refresh_post(secrets, cleared, Some(token), now, result, after),
    ensures
        result == Err::<RefreshView, ErrorView>(token_unknown(no_row())),
        token_unknown(no_row()).kind == ErrorKind::NotFound,
        after == cleared,
{
    lemma_cleared(before, token);
}

/// A logout without a cookie is unauthorized and never succeeds; a second
/// logout with the same token is not found.
pub proof fn law_logout_needs_a_session(
    before: Seq<CredentialsView>,
    token: Seq<char>,
    username: Seq<char>,
    cleared: Seq<CredentialsView>,
)
    ensures
        logout_outcome(before, None) == (Err::<Seq<char>, ErrorView>(already_logged_out()), before),
        already_logged_out().kind == ErrorKind::Unauthorized,
        logout_outcome(before, Some(token)) == (Ok::<Seq<char>, ErrorView>(username), cleared)
            ==> logout_outcome(cleared, Some(token)) == (
            Err::<Seq<char>, ErrorView>(token_unknown(no_row())),
            cleared,
        ),
{
    lemma_cleared(before, token);
}

/// The guard lets a request pass where its header is two segments and the
/// token verified with an expiry after `now`.
pub proof fn law_guard_accepts(header: Option<Seq<char>>, claims: ClaimsView, now: int)
    requires
        guard_token(header) is Some,
        now < claims.exp,
    ensures
        guard_outcome(header, true, Ok(claims), now) == Ok::<(), ErrorView>(()),
{
}

/// The guard lets pass a request that sends, as `Bearer` and the token, a
/// token that was signed with the access secret over an expiry after `now`,
/// unless the verifier turns the token down as expired by its own clock.
pub proof fn law_guard_accepts_signed_token(
    secrets: Secrets,
    token: Seq<char>,
    claims: ClaimsView,
    verified: VerifiedView,
    now: int,
)
    requires
        sealed(token, claims, secrets.access),
        0 <= now < claims.exp,
        verification(token, secrets.access, verified),
        verified != Err::<ClaimsView, FaultView>(FaultView::Expired),
    ensures
        guard_outcome(Some("Bearer "@ + token), true, verified, now) == Ok::<(), ErrorView>(()),
{
    law_bearer_header(token);
}

/// The guard lets a request pass only where its token carries, for the
/// access secret, a complete claim set whose expiry lies after `now`.
pub proof fn law_guard_sound(
    secrets: Secrets,
    header: Option<Seq<char>>,
    verified: VerifiedView,
    now: int,
)
    requires
        guard_token(header) matches Some(token) ==> verification(token, secrets.access, verified),
        guard_outcome(header, true, verified, now) is Ok,
    ensures
        guard_token(header) matches Some(token) && (token_claims(
            token,
            secrets.access,
        ) matches Some(claims) && now < claims.exp),
{
}

/// A refresh succeeds only where a record holds the presented token, and
/// the token carries, for the refresh secret, a complete claim set that
/// names the account of the record and whose expiry lies after `now`.
pub proof fn law_refresh_sound(
    secrets: Secrets,
    before: Seq<CredentialsView>,
    cookie: Option<Seq<char>>,
    now: int,
    renewed: RefreshView,
    after: Seq<CredentialsView>,
)
    requires
        refresh_post(secrets, before, cookie, now, Ok(renewed), after),
    ensures
        cookie matches Some(token) && (by_refresh_token(before, token) matches Some(record) && (
        token_claims(token, secrets.refresh) matches Some(claims) && claims.username
            == record.username && now < claims.exp)),
        after == replace_refresh(before, cookie->0, renewed.refresh_token),
{
    let verified = choose|verified: VerifiedView|
        refresh_post_with(secrets, before, cookie, now, verified, Ok(renewed), after);
    let record = by_refresh_token(before, cookie->0)->0;
    assert(refresh_check(verified, record.username, now) is Ok);
}

/// The guard turns a request down as unauthorized where it has no header or
/// one that is not two segments, where the token carries no complete claim
/// set for the access secret, and from the second of the token's expiry on.
/// It turns no request down as anything else.
pub proof fn law_guard_rejects(
    secrets: Secrets,
    header: Option<Seq<char>>,
    verified: VerifiedView,
    now: int,
)
    requires
        guard_token(header) matches Some(token) ==> verification(token, secrets.access, verified),
    ensures
        guard_outcome(header, true, verified, now) matches Err(e) ==> e.kind
            == ErrorKind::Unauthorized,
        guard_token(header) is None ==> guard_outcome(header, true, verified, now) == Err::<
            (),
            ErrorView,
        >(token_missing()),
        guard_token(header) matches Some(token) && token_claims(token, secrets.access) is None
            ==> guard_outcome(header, true, verified, now) is Err,
        guard_token(header) matches Some(token) && token_claims(token, secrets.access) matches Some(
            claims,
        ) && now >= claims.exp ==> guard_outcome(header, true, verified, now) is Err,
{
}

/// The access token of a sign-in, sent as `Bearer` and the token, is the
/// token that the guard reads out of the header.
pub proof fn law_issued_access_token_is_presented(
    secrets: Secrets,
    before: Seq<CredentialsView>,
    payload: PayloadView,
    now: int,
    signin: SigninView,
    after: Seq<CredentialsView>,
)
    requires
        signin_post(secrets, before, payload, now, Ok(signin), after),
    ensures
        guard_token(Some("Bearer "@ + signin.encoded_access_token)) == Some(
            signin.encoded_access_token,
        ),
{
    law_bearer_header(signin.encoded_access_token);
}

/// The access token of a refresh, sent as `Bearer` and the token, is the
/// token that the guard reads out of the header.
pub proof fn law_renewed_access_token_is_presented(
    secrets: Secrets,
    before: Seq<CredentialsView>,
    cookie: Option<Seq<char>>,
    now: int,
    renewed: RefreshView,
    after: Seq<CredentialsView>,
)
    requires
        refresh_post(secrets, before, cookie, now, Ok(renewed), after),
    ensures
        guard_token(Some("Bearer "@ + renewed.access_token)) == Some(renewed.access_token),
{
    let verified = choose|verified: VerifiedView|
        refresh_post_with(secrets, before, cookie, now, verified, Ok(renewed), after);
    law_bearer_header(renewed.access_token);
}

/// The access token of a sign-in passes the guard until its lifetime is
/// over, unless the verifier turns it down as expired by its own clock.
pub proof fn law_issued_access_token_passes(
    secrets: Secrets,
    before: Seq<CredentialsView>,
    payload: PayloadView,
    now: int,
    signin: SigninView,
    after: Seq<CredentialsView>,
    header: Option<Seq<char>>,
    verified: VerifiedView,
    later: int,
)
    requires
        signin_post(secrets, before, payload, now, Ok(signin), after),
        guard_token(header) == Some(signin.encoded_access_token),
        verification(signin.encoded_access_token, secrets.access, verified),
        verified != Err::<ClaimsView, FaultView>(FaultView::Expired),
    ensures
        guard_outcome(header, true, verified, later) is Ok <==> later < now + ACCESS_TOKEN_SECONDS,
{
}

/// A refresh right after a sign-in, with the refresh token that the sign-in
/// returned and before that token expires, succeeds unless the verifier
/// turns the token down as expired by its own clock: the account then holds
/// the new refresh token, which expires when the one of the sign-in did.
pub proof fn law_signin_then_refresh(
    secrets: Secrets,
    before: Seq<CredentialsView>,
    payload: PayloadView,
    now: int,
    signin: SigninView,
    stored: Seq<CredentialsView>,
    later: int,
    result: Result<RefreshView, ErrorView>,
    after: Seq<CredentialsView>,
)
    requires
        store_wf(before),
        store_mirrored(before, secrets.refresh),
        signin_post(secrets, before, payload, now, Ok(signin), stored),
        refresh_post(secrets, stored, Some(signin.encoded_refresh_token), later, result, after),
        later < now + REFRESH_TOKEN_SECONDS,
        result != Err::<RefreshView, ErrorView>(signature_expired()),
    ensures
        result matches Ok(renewed) && token_claims(renewed.refresh_token, secrets.refresh) == Some(
            ClaimsView { username: signin.username, iat: later, exp: now + REFRESH_TOKEN_SECONDS },
        ) && renewed.refresh_token_previous_max_age == now + REFRESH_TOKEN_SECONDS - later && (
        by_username(after, signin.username) matches Some(record) && record.refresh_token == Some(
            renewed.refresh_token,
        ) && record.max_age == Some(now + REFRESH_TOKEN_SECONDS)),
{
    let token = signin.encoded_refresh_token;
    let expiry = now + REFRESH_TOKEN_SECONDS;
    law_signin_keeps_mirror(secrets, before, payload, now, Ok(signin), stored);
    lemma_persisted(before, payload.username, token, expiry);
    lemma_found(before, payload.username);
    lemma_found(stored, token);
    let held = by_username(stored, payload.username)->0;
    let found = by_refresh_token(stored, token)->0;
    assert(by_refresh_token(stored, token) is Some) by {
        if by_refresh_token(stored, token) is None {
            let i = choose|i: int| 0 <= i < stored.len() && stored[i] == held;
            assert(stored[i].refresh_token == Some(token));
        }
    }
    let j = choose|j: int| 0 <= j < stored.len() && stored[j] == found;
    assert(session_mirrored(stored[j], secrets.refresh));
    assert(found.username == payload.username);
    assert(found == held) by {
        let i = choose|i: int| 0 <= i < stored.len() && stored[i] == held;
        lemma_apply_wf(
            before,
            RequestView::SetRefresh { username: payload.username, token, max_age: expiry },
        );
        if i != j {
            assert(stored[i].username != stored[j].username);
        }
    }
    let verified = choose|verified: VerifiedView|
        refresh_post_with(
            secrets,
            stored,
            Some(token),
            later,
            verified,
            result,
            after,
        );
    reveal_strlit("signature refresh_token is expired.");
    assert(verified is Ok);
    let renewed = refresh_mint(secrets, found.username, expiry, later);
    lemma_rotated(stored, token, renewed.refresh_token);
    law_rotation_keeps_expiry(
        secrets,
        stored,
        token,
        ClaimsView { username: signin.username, iat: now, exp: expiry },
        later,
        renewed,
        after,
    );
}

/// The accounts of two stores are the same: as many records, each with the
/// name and the password digest it had.
pub open spec fn same_accounts(before: Seq<CredentialsView>, after: Seq<CredentialsView>) -> bool {
    &&& after.len() == before.len()
    &&& forall|i: int|
        0 <= i < before.len() ==> (#[trigger] after[i]).username == before[i].username
            && after[i].password == before[i].password
}

/// Sign-in, refresh and logout change sessions only: whatever they come to,
/// the store has the accounts it had, each under its name and with its
/// password digest.
pub proof fn law_sessions_keep_accounts(
    secrets: Secrets,
    before: Seq<CredentialsView>,
    payload: PayloadView,
    cookie: Option<Seq<char>>,
    now: int,
    verified: VerifiedView,
)
    ensures
        same_accounts(before, signin_outcome(secrets, before, payload, now).1),
        same_accounts(before, refresh_outcome(secrets, before, cookie, now, verified).1),
        same_accounts(before, logout_outcome(before, cookie).1),
{
}

/// A record's session is mirrored where its token carries, for the refresh
/// secret, the name of the account and the expiry that the record holds.
pub open spec fn session_mirrored(record: CredentialsView, secret: Seq<char>) -> bool {
    record.refresh_token matches Some(token) ==> token_claims(token, secret) matches Some(claims)
        && claims.username == record.username && record.max_age == Some(claims.exp)
}

/// Every record's session is mirrored.
pub open spec fn store_mirrored(records: Seq<CredentialsView>, secret: Seq<char>) -> bool {
    forall|i: int| 0 <= i < records.len() ==> session_mirrored(#[trigger] records[i], secret)
}

/// Sign-in keeps every session mirrored.
pub proof fn law_signin_keeps_mirror(
    secrets: Secrets,
    before: Seq<CredentialsView>,
    payload: PayloadView,
    now: int,
    result: Result<SigninView, ErrorView>,
    after: Seq<CredentialsView>,
)
    requires
        store_mirrored(before, secrets.refresh),
        signin_post(secrets, before, payload, now, result, after),
    ensures
        store_mirrored(after, secrets.refresh),
{
    if result is Ok {
        assert forall|i: int| 0 <= i < after.len() implies session_mirrored(
            #[trigger] after[i],
            secrets.refresh,
        ) by {
            assert(session_mirrored(before[i], secrets.refresh));
        }
    }
}

/// Refresh keeps every session mirrored.
pub proof fn law_refresh_keeps_mirror(
    secrets: Secrets,
    before: Seq<CredentialsView>,
    cookie: Option<Seq<char>>,
    now: int,
    result: Result<RefreshView, ErrorView>,
    after: Seq<CredentialsView>,
)
    requires
        store_wf(before),
        store_mirrored(before, secrets.refresh),
        refresh_post(secrets, before, cookie, now, result, after),
    ensures
        store_mirrored(after, secrets.refresh),
{
    if result is Ok {
        let verified = choose|verified: VerifiedView|
            refresh_post_with(secrets, before, cookie, now, verified, result, after);
        let presented = cookie->0;
        let record = by_refresh_token(before, presented)->0;
        lemma_found(before, presented);
        assert(refresh_check(verified, record.username, now) is Ok);
        assert forall|i: int| 0 <= i < after.len() implies session_mirrored(
            #[trigger] after[i],
            secrets.refresh,
        ) by {
            assert(session_mirrored(before[i], secrets.refresh));
        }
    }
}

/// Logout keeps every session mirrored.
pub proof fn law_logout_keeps_mirror(
    secret: Seq<char>,
    before: Seq<CredentialsView>,
    cookie: Option<Seq<char>>,
)
    requires
        store_mirrored(before, secret),
    ensures
        store_mirrored(logout_outcome(before, cookie).1, secret),
{
    let after = logout_outcome(before, cookie).1;
    assert forall|i: int| 0 <= i < after.len() implies session_mirrored(
        #[trigger] after[i],
        secret,
    ) by {
        assert(session_mirrored(before[i], secret));
    }
}

/// Where every session is mirrored, a refresh never finds a token under
/// another account than the one the token names.
pub proof fn law_no_cross_account_token(
    secrets: Secrets,
    before: Seq<CredentialsView>,
    cookie: Option<Seq<char>>,
    now: int,
    result: Result<RefreshView, ErrorView>,
    after: Seq<CredentialsView>,
)
    requires
        store_mirrored(before, secrets.refresh),
        refresh_post(secrets, before, cookie, now, result, after),
    ensures
        result != Err::<RefreshView, ErrorView>(subject_mismatch()),
{
    let verified = choose|verified: VerifiedView|
        refresh_post_with(secrets, before, cookie, now, verified, result, after);
    reveal_strlit("stored_username is mismatch with decoded_refresh_token_username");
    reveal_strlit("signature refresh_token is expired.");
    reveal_strlit("refresh token has been expired. please log in again.");
    assert("stored_username is mismatch with decoded_refresh_token_username"@.len() == 63);
    assert("signature refresh_token is expired."@.len() == 35);
    assert("refresh token has been expired. please log in again."@.len() == 52);
    if let Some(presented) = cookie {
        lemma_found(before, presented);
        if let Some(record) = by_refresh_token(before, presented) {
            let i = choose|i: int| 0 <= i < before.len() && before[i] == record;
            assert(session_mirrored(before[i], secrets.refresh));
            if let Ok(claims) = verified {
                assert(token_claims(presented, secrets.refresh) == Some(claims));
                assert(claims.username == record.username);
            }
        }
    }
}

/// What a sign-in comes to when its requests are put, one after the other,
/// to a store that does what `apply` says: at most `patience` of them.
pub open spec fn signin_driven(
    secrets: Secrets,
    flow: SigninFlowView,
    action: ActionView<SigninView>,
    records: Seq<CredentialsView>,
    patience: nat,
) -> (Result<SigninView, ErrorView>, Seq<CredentialsView>)
    decreases patience,
{
    match action {
        ActionView::Finish(result) => (result, records),
        ActionView::Ask(request) => if patience == 0 {
            (Err(protocol_failure()), records)
        } else {
            let (stored, reply) = apply(records, request);
            let (next, then) = signin_next(secrets, flow, EventView::Reply(reply));
            signin_driven(secrets, next, then, stored, (patience - 1) as nat)
        },
        _ => (Err(protocol_failure()), records),
    }
}

/// A sign-in that is driven against such a store comes to its outcome
/// within three requests.
pub proof fn law_signin_machine(
    secrets: Secrets,
    records: Seq<CredentialsView>,
    payload: PayloadView,
    now: int,
)
    ensures
        signin_driven(
            secrets,
            signin_begin(payload, now).0,
            signin_begin(payload, now).1,
            records,
            3,
        ) == signin_outcome(secrets, records, payload, now),
{
    reveal_with_fuel(signin_driven, 4);
    if payload_valid(payload) && by_username(records, payload.username) is Some {
        lemma_persisted(
            records,
            payload.username,
            signin_mint(secrets, payload.username, now).encoded_refresh_token,
            now + REFRESH_TOKEN_SECONDS,
        );
    }
}

/// What a refresh comes to when its requests are put to a store that does
/// what `apply` says, and the stored token is verified with the answer
/// `verified`: at most `patience` steps of it.
pub open spec fn refresh_driven(
    secrets: Secrets,
    flow: RefreshFlowView,
    action: ActionView<RefreshView>,
    records: Seq<CredentialsView>,
    verified: VerifiedView,
    patience: nat,
) -> (Result<RefreshView, ErrorView>, Seq<CredentialsView>)
    decreases patience,
{
    match action {
        ActionView::Finish(result) => (result, records),
        _ => if patience == 0 {
            (Err(protocol_failure()), records)
        } else {
            match action {
                ActionView::Ask(request) => {
                    let (stored, reply) = apply(records, request);
                    let (next, then) = refresh_next(secrets, flow, EventView::Reply(reply));
                    refresh_driven(secrets, next, then, stored, verified, (patience - 1) as nat)
                },
                ActionView::Decode { token } => {
                    let (next, then) = refresh_next(secrets, flow, EventView::Decoded(verified));
                    refresh_driven(secrets, next, then, records, verified, (patience - 1) as nat)
                },
                _ => (Err(protocol_failure()), records),
            }
        },
    }
}

/// A refresh that is driven against such a store comes to its outcome
/// within four steps, and the token that it has verified is the presented
/// one.
pub proof fn law_refresh_machine(
    secrets: Secrets,
    records: Seq<CredentialsView>,
    cookie: Option<Seq<char>>,
    now: int,
    verified: VerifiedView,
)
    requires
        store_wf(records),
    ensures
        refresh_driven(
            secrets,
            refresh_begin(cookie, now).0,
            refresh_begin(cookie, now).1,
            records,
            verified,
            4,
        ) == refresh_outcome(secrets, records, cookie, now, verified),
{
    reveal_with_fuel(refresh_driven, 5);
    if let Some(presented) = cookie {
        lemma_found(records, presented);
        if let Some(record) = by_refresh_token(records, presented) {
            if let Ok(claims) = refresh_check(verified, record.username, now) {
                let renewed = refresh_mint(secrets, record.username, claims.exp, now);
                lemma_rotated(records, presented, renewed.refresh_token);
            }
        }
    }
}

/// What a logout comes to when its requests are put to a store that does
/// what `apply` says: at most `patience` of them.
pub open spec fn logout_driven(
    flow: LogoutFlowView,
    action: ActionView<Seq<char>>,
    records: Seq<CredentialsView>,
    patience: nat,
) -> (Result<Seq<char>, ErrorView>, Seq<CredentialsView>)
    decreases patience,
{
    match action {
        ActionView::Finish(result) => (result, records),
        ActionView::Ask(request) => if patience == 0 {
            (Err(protocol_failure()), records)
        } else {
            let (stored, reply) = apply(records, request);
            let (next, then) = logout_next(flow, EventView::Reply(reply));
            logout_driven(next, then, stored, (patience - 1) as nat)
        },
        _ => (Err(protocol_failure()), records),
    }
}

/// A logout that is driven against such a store comes to its outcome
/// within three requests.
pub proof fn law_logout_machine(records: Seq<CredentialsView>, cookie: Option<Seq<char>>)
    ensures
        logout_driven(logout_begin(cookie).0, logout_begin(cookie).1, records, 3) == logout_outcome(
            records,
            cookie,
        ),
{
    reveal_with_fuel(logout_driven, 4);
    if let Some(presented) = cookie {
        lemma_found(records, presented);
        lemma_cleared(records, presented);
    }
}

/// What a registration comes to when its requests are put to a store that
/// does what `apply` says, and the password is hashed with the answer
/// `hashed`: at most `patience` steps of it.
pub open spec fn signup_driven(
    flow: SignupFlowView,
    action: ActionView<Seq<char>>,
    records: Seq<CredentialsView>,
    hashed: Result<Seq<char>, Seq<char>>,
    patience: nat,
) -> (Result<Seq<char>, ErrorView>, Seq<CredentialsView>)
    decreases patience,
{
    match action {
        ActionView::Finish(result) => (result, records),
        _ => if patience == 0 {
            (Err(protocol_failure()), records)
        } else {
            match action {
                ActionView::Ask(request) => {
                    let (stored, reply) = apply(records, request);
                    let (next, then) = signup_next(flow, EventView::Reply(reply));
                    signup_driven(next, then, stored, hashed, (patience - 1) as nat)
                },
                ActionView::Hash { password } => {
                    let (next, then) = signup_next(flow, EventView::Hashed(hashed));
                    signup_driven(next, then, records, hashed, (patience - 1) as nat)
                },
                _ => (Err(protocol_failure()), records),
            }
        },
    }
}

/// A registration that is driven against such a store comes to its outcome
/// within four steps.
pub proof fn law_signup_machine(
    records: Seq<CredentialsView>,
    payload: PayloadView,
    hashed: Result<Seq<char>, Seq<char>>,
)
    ensures
        signup_driven(signup_begin(payload).0, signup_begin(payload).1, records, hashed, 4)
            == signup_outcome(records, payload, hashed),
{
    reveal_with_fuel(signup_driven, 5);
    if payload_valid(payload) && by_username(records, payload.username) is None {
        if let Ok(digest) = hashed {
            lemma_registered(records, fresh_record(payload.username, digest));
        }
    }
}

} // verus!
