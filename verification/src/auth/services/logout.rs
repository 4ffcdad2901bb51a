use vstd::prelude::*;
use vstd::string::StringExecFns;

use crate::auth::flow::{result_view, text, Action, ActionView, Event, EventView};
use crate::auth::model::{Credentials, CredentialsView};
use crate::auth::services::refresh::token_unknown;
use crate::auth::store::{
    by_refresh_token, clear_refresh, lemma_found, lemma_token_absent, no_row, store_wf,
    CredentialStore, ReplyView, RequestView, StoreReply, StoreRequest,
};
use crate::errors::{database_failure, failure, protocol_failure, AppError, ErrorKind, ErrorView};

verus! {

/// Where a logout stands: what it has asked for and is waiting on.
#[derive(Debug, PartialEq, Eq)]
pub enum LogoutFlow {
    /// Waiting for the record that holds the presented token.
    Lookup { presented: String },
    /// Waiting for the stored token to be cleared.
    Clear { presented: String, username: String },
    /// Waiting to hear that no record holds the presented token any more.
    Probe { username: String },
    /// Over.
    Done,
}

pub ghost enum LogoutFlowView {
    Lookup { presented: Seq<char> },
    Clear { presented: Seq<char>, username: Seq<char> },
    Probe { username: Seq<char> },
    Done,
}

impl View for LogoutFlow {
    type V = LogoutFlowView;

    open spec fn view(&self) -> LogoutFlowView {
        match *self {
            LogoutFlow::Lookup { presented } => LogoutFlowView::Lookup { presented: presented@ },
            LogoutFlow::Clear { presented, username } => LogoutFlowView::Clear {
                presented: presented@,
                username: username@,
            },
            LogoutFlow::Probe { username } => LogoutFlowView::Probe { username: username@ },
            LogoutFlow::Done => LogoutFlowView::Done,
        }
    }
}

pub open spec fn already_logged_out() -> ErrorView {
    failure(ErrorKind::Unauthorized, "you have been already logged out."@, None)
}

pub open spec fn token_remains_message(username: Seq<char>) -> Seq<char> {
    "an unexpected error occurred while processing your request. refresh_token from user '"@
        + username + "' still exists in the database. please try again."@
}

pub open spec fn token_remains(username: Seq<char>) -> ErrorView {
    failure(ErrorKind::InternalServerError, token_remains_message(username), None)
}

/// How a logout starts: without a cookie it is over at once, with one it asks
/// for the record that holds the token.
pub open spec fn logout_begin(cookie: Option<Seq<char>>) -> (LogoutFlowView, ActionView<Seq<char>>) {
    match cookie {
        None => (LogoutFlowView::Done, ActionView::Finish(Err(already_logged_out()))),
        Some(presented) => (
            LogoutFlowView::Lookup { presented },
            ActionView::Ask(RequestView::FindByRefreshToken { token: presented }),
        ),
    }
}

/// How a logout goes on from an answer.
pub open spec fn logout_next(flow: LogoutFlowView, event: EventView) -> (
    LogoutFlowView,
    ActionView<Seq<char>>,
) {
    match (flow, event) {
        (
            LogoutFlowView::Lookup { presented },
            EventView::Reply(ReplyView::Row(record)),
        ) => match record.refresh_token {
            Some(stored) => (
                LogoutFlowView::Clear { presented, username: record.username },
                ActionView::Ask(RequestView::ClearRefresh { token: stored }),
            ),
            None => (LogoutFlowView::Done, ActionView::Finish(Err(protocol_failure()))),
        },
        (LogoutFlowView::Lookup { .. }, EventView::Reply(ReplyView::Failed(text))) => (
            LogoutFlowView::Done,
            ActionView::Finish(Err(token_unknown(text))),
        ),
        (LogoutFlowView::Clear { presented, username }, EventView::Reply(ReplyView::Done)) => (
            LogoutFlowView::Probe { username },
            ActionView::Ask(RequestView::FindByRefreshToken { token: presented }),
        ),
        (LogoutFlowView::Clear { .. }, EventView::Reply(ReplyView::Failed(text))) => (
            LogoutFlowView::Done,
            ActionView::Finish(Err(database_failure(text))),
        ),
        (LogoutFlowView::Probe { username }, EventView::Reply(ReplyView::Row(_))) => (
            LogoutFlowView::Done,
            ActionView::Finish(Err(token_remains(username))),
        ),
        (LogoutFlowView::Probe { username }, EventView::Reply(ReplyView::Failed(_))) => (
            LogoutFlowView::Done,
            ActionView::Finish(Ok(username)),
        ),
        _ => (LogoutFlowView::Done, ActionView::Finish(Err(protocol_failure()))),
    }
}

/// The error for a token that is still there after it was cleared.
pub fn still_there(username: &String) -> (e: AppError)
    ensures
        e@ == token_remains(username@),
{
    let message = String::from_str(
        "an unexpected error occurred while processing your request. refresh_token from user '",
    ).concat(username.as_str()).concat("' still exists in the database. please try again.");
    AppError::new(ErrorKind::InternalServerError, message, None)
}

impl LogoutFlow {
    /// Starts a logout for the cookie that a request carried.
    pub fn begin(cookie: Option<String>) -> (r: (LogoutFlow, Action<String>))
        ensures
            (r.0@, r.1@) == logout_begin(text(cookie)),
    {
        match cookie {
            None => (
                LogoutFlow::Done,
                Action::Finish(
                    Err(AppError::plain(ErrorKind::Unauthorized, "you have been already logged out.")),
                ),
            ),
            Some(presented) => {
                let token = presented.clone();
                (
                    LogoutFlow::Lookup { presented },
                    Action::Ask(StoreRequest::FindByRefreshToken { token }),
                )
            },
        }
    }

    /// Takes the answer to what the logout last asked for and says what it
    /// wants next.
    pub fn step(self, event: Event) -> (r: (LogoutFlow, Action<String>))
        ensures
            (r.0@, r.1@) == logout_next(self@, event@),
    {
        match (self, event) {
            (LogoutFlow::Lookup { presented }, Event::Reply(StoreReply::Row(record))) => {
                let Credentials { username, password: _, refresh_token, max_age: _ } = record;
                match refresh_token {
                    Some(stored) => (
                        LogoutFlow::Clear { presented, username },
                        Action::Ask(StoreRequest::ClearRefresh { token: stored }),
                    ),
                    None => (LogoutFlow::Done, Action::Finish(Err(AppError::protocol()))),
                }
            },
            (LogoutFlow::Lookup { .. }, Event::Reply(StoreReply::Failed(text))) => (
                LogoutFlow::Done,
                Action::Finish(
                    Err(
                        AppError::detailed(
                            ErrorKind::NotFound,
                            "refresh_token not found in the database.",
                            text,
                        ),
                    ),
                ),
            ),
            (LogoutFlow::Clear { presented, username }, Event::Reply(StoreReply::Done)) => (
                LogoutFlow::Probe { username },
                Action::Ask(StoreRequest::FindByRefreshToken { token: presented }),
            ),
            (LogoutFlow::Clear { .. }, Event::Reply(StoreReply::Failed(text))) => (
                LogoutFlow::Done,
                Action::Finish(Err(AppError::database(text))),
            ),
            (LogoutFlow::Probe { username }, Event::Reply(StoreReply::Row(_))) => (
                LogoutFlow::Done,
                Action::Finish(Err(still_there(&username))),
            ),
            (LogoutFlow::Probe { username }, Event::Reply(StoreReply::Failed(_))) => (
                LogoutFlow::Done,
                Action::Finish(Ok(username)),
            ),
            _ => (LogoutFlow::Done, Action::Finish(Err(AppError::protocol()))),
        }
    }
}

/// What a logout comes to, and what it leaves in the store.
///
/// Without a cookie it is unauthorized: a second logout is an error. A token
/// that no record holds is not found, and the store stays as it is. Otherwise
/// the token and its expiry are cleared wherever the token stands, and the
/// caller gets the name of the account that held it.
pub open spec fn logout_outcome(records: Seq<CredentialsView>, cookie: Option<Seq<char>>) -> (
    Result<Seq<char>, ErrorView>,
    Seq<CredentialsView>,
) {
    match cookie {
        None => (Err(already_logged_out()), records),
        Some(presented) => match by_refresh_token(records, presented) {
            None => (Err(token_unknown(no_row())), records),
            Some(record) => (Ok(record.username), clear_refresh(records, presented)),
        },
    }
}

/// A token that was cleared is held by no record.
pub proof fn lemma_cleared(records: Seq<CredentialsView>, token: Seq<char>)
    ensures
        by_refresh_token(clear_refresh(records, token), token) is None,
{
    let after = clear_refresh(records, token);
    assert forall|j: int| 0 <= j < after.len() implies (#[trigger] after[j]).refresh_token != Some(
        token,
    ) by {}
    lemma_token_absent(after, token);
}

/// Ends the session of the cookie against the store.
pub fn logout_service(store: &mut CredentialStore, refresh_token_cookie: Option<String>) -> (r: Result<
    String,
    AppError,
>)
    ensures
        store_wf(old(store)@),
        store_wf(final(store)@),
        (result_view(r), final(store)@) == logout_outcome(old(store)@, text(refresh_token_cookie)),
{
    proof {
        use_type_invariant(&*store);
    }
    let ghost before = store@;
    let ghost cookie = text(refresh_token_cookie);
    let (flow, action) = LogoutFlow::begin(refresh_token_cookie);
    let (flow, action) = match action {
        Action::Ask(request) => {
            let reply = store.perform(&request);
            flow.step(Event::Reply(reply))
        },
        other => (flow, other),
    };
    proof {
        if let Some(presented) = cookie {
            lemma_found(before, presented);
            lemma_cleared(before, presented);
        }
    }
    let (flow, action) = match action {
        Action::Ask(request) => {
            let reply = store.perform(&request);
            flow.step(Event::Reply(reply))
        },
        other => (flow, other),
    };
    let (flow, action) = match action {
        Action::Ask(request) => {
            let reply = store.perform(&request);
            flow.step(Event::Reply(reply))
        },
        other => (flow, other),
    };
    proof {
        use_type_invariant(&*store);
    }
    match action {
        Action::Finish(result) => result,
        _ => Err(AppError::protocol()),
    }
}

} // verus!
