use vstd::prelude::*;
use vstd::string::StringExecFns;

use crate::auth::flow::{result_view, texts_view, Action, ActionView, Event, EventView};
use crate::auth::helpers::{hash_failed, hash_with_fresh_salt, hashing, password_hashed};
use crate::auth::model::{
    payload_failures, payload_valid, validation_error, CredentialsPayload, CredentialsView,
    PayloadView,
};
use crate::auth::store::{store_wf, 
    by_username, fresh_record, lemma_found, lemma_username_at, username_at, CredentialStore,
    ReplyView, RequestView, StoreReply, StoreRequest,
};
use crate::errors::{database_failure, failure, protocol_failure, AppError, ErrorKind, ErrorView};

verus! {

/// Where a registration stands: what it has asked for and is waiting on.
#[derive(Debug, PartialEq, Eq)]
pub enum SignupFlow {
    /// Waiting to hear whether the name is taken.
    Lookup { payload: CredentialsPayload },
    /// Waiting for the digest of the password.
    Hashing { payload: CredentialsPayload },
    /// Waiting for the record to be written.
    Insert { username: String },
    /// Waiting for the record to be read back.
    Confirm { username: String },
    /// Over.
    Done,
}

pub ghost enum SignupFlowView {
    Lookup { payload: PayloadView },
    Hashing { payload: PayloadView },
    Insert { username: Seq<char> },
    Confirm { username: Seq<char> },
    Done,
}

impl View for SignupFlow {
    type V = SignupFlowView;

    open spec fn view(&self) -> SignupFlowView {
        match *self {
            SignupFlow::Lookup { payload } => SignupFlowView::Lookup { payload: payload@ },
            SignupFlow::Hashing { payload } => SignupFlowView::Hashing { payload: payload@ },
            SignupFlow::Insert { username } => SignupFlowView::Insert { username: username@ },
            SignupFlow::Confirm { username } => SignupFlowView::Confirm { username: username@ },
            SignupFlow::Done => SignupFlowView::Done,
        }
    }
}

pub open spec fn username_taken_message(username: Seq<char>) -> Seq<char> {
    "the username '"@ + username + "' is already taken. please choose a different username."@
}

pub open spec fn username_taken(username: Seq<char>) -> ErrorView {
    failure(ErrorKind::Conflict, username_taken_message(username), None)
}

pub open spec fn signup_unconfirmed() -> ErrorView {
    failure(
        ErrorKind::InternalServerError,
        "an unknown error occurred while processing your request. please try again later."@,
        None,
    )
}

/// How a registration starts: a payload that breaks a rule ends it at once,
/// a valid one asks whether the name is taken.
pub open spec fn signup_begin(payload: PayloadView) -> (SignupFlowView, ActionView<Seq<char>>) {
    if payload_valid(payload) {
        (
            SignupFlowView::Lookup { payload },
            ActionView::Ask(RequestView::FindByUsername { username: payload.username }),
        )
    } else {
        (
            SignupFlowView::Done,
            ActionView::Finish(Err(validation_error(payload_failures(payload)))),
        )
    }
}

/// How a registration goes on from an answer.
pub open spec fn signup_next(flow: SignupFlowView, event: EventView) -> (
    SignupFlowView,
    ActionView<Seq<char>>,
) {
    match (flow, event) {
        (SignupFlowView::Lookup { payload }, EventView::Reply(ReplyView::Row(_))) => (
            SignupFlowView::Done,
            ActionView::Finish(Err(username_taken(payload.username))),
        ),
        (SignupFlowView::Lookup { payload }, EventView::Reply(ReplyView::Failed(_))) => (
            SignupFlowView::Hashing { payload },
            ActionView::Hash { password: payload.password },
        ),
        (SignupFlowView::Hashing { payload }, EventView::Hashed(Ok(digest))) => (
            SignupFlowView::Insert { username: payload.username },
            ActionView::Ask(
                RequestView::InsertCredentials { username: payload.username, password: digest },
            ),
        ),
        (SignupFlowView::Hashing { payload }, EventView::Hashed(Err(text))) => (
            SignupFlowView::Done,
            ActionView::Finish(Err(hash_failed(payload.password, text))),
        ),
        (SignupFlowView::Insert { username }, EventView::Reply(ReplyView::Done)) => (
            SignupFlowView::Confirm { username },
            ActionView::Ask(RequestView::FindByUsername { username }),
        ),
        (SignupFlowView::Insert { .. }, EventView::Reply(ReplyView::Failed(text))) => (
            SignupFlowView::Done,
            ActionView::Finish(Err(database_failure(text))),
        ),
        (SignupFlowView::Confirm { username }, EventView::Reply(ReplyView::Row(_))) => (
            SignupFlowView::Done,
            ActionView::Finish(Ok(username)),
        ),
        (SignupFlowView::Confirm { .. }, EventView::Reply(ReplyView::Failed(_))) => (
            SignupFlowView::Done,
            ActionView::Finish(Err(signup_unconfirmed())),
        ),
        _ => (SignupFlowView::Done, ActionView::Finish(Err(protocol_failure()))),
    }
}

/// The error for a name that an account already has.
pub fn taken(username: &String) -> (e: AppError)
    ensures
        e@ == username_taken(username@),
{
    let message = String::from_str("the username '").concat(username.as_str()).concat(
        "' is already taken. please choose a different username.",
    );
    AppError::new(ErrorKind::Conflict, message, None)
}

impl SignupFlow {
    /// Starts a registration for a payload.
    pub fn begin(payload: CredentialsPayload) -> (r: (SignupFlow, Action<String>))
        ensures
            (r.0@, r.1@) == signup_begin(payload@),
    {
        match payload.validate() {
            Err(e) => (SignupFlow::Done, Action::Finish(Err(e))),
            Ok(()) => {
                let username = payload.username.clone();
                (
                    SignupFlow::Lookup { payload },
                    Action::Ask(StoreRequest::FindByUsername { username }),
                )
            },
        }
    }

    /// Takes the answer to what the registration last asked for and says
    /// what it wants next.
    pub fn step(self, event: Event) -> (r: (SignupFlow, Action<String>))
        ensures
            (r.0@, r.1@) == signup_next(self@, event@),
    {
        match (self, event) {
            (SignupFlow::Lookup { payload }, Event::Reply(StoreReply::Row(_))) => (
                SignupFlow::Done,
                Action::Finish(Err(taken(&payload.username))),
            ),
            (SignupFlow::Lookup { payload }, Event::Reply(StoreReply::Failed(_))) => {
                let password = payload.password.clone();
                (SignupFlow::Hashing { payload }, Action::Hash { password })
            },
            (SignupFlow::Hashing { payload }, Event::Hashed(outcome)) => {
                match password_hashed(outcome, payload.password.as_str()) {
                    Ok(digest) => {
                        let username = payload.username.clone();
                        (
                            SignupFlow::Insert { username: payload.username },
                            Action::Ask(
                                StoreRequest::InsertCredentials { username, password: digest },
                            ),
                        )
                    },
                    Err(e) => (SignupFlow::Done, Action::Finish(Err(e))),
                }
            },
            (SignupFlow::Insert { username }, Event::Reply(StoreReply::Done)) => {
                let wanted = username.clone();
                (
                    SignupFlow::Confirm { username },
                    Action::Ask(StoreRequest::FindByUsername { username: wanted }),
                )
            },
            (SignupFlow::Insert { .. }, Event::Reply(StoreReply::Failed(text))) => (
                SignupFlow::Done,
                Action::Finish(Err(AppError::database(text))),
            ),
            (SignupFlow::Confirm { username }, Event::Reply(StoreReply::Row(_))) => (
                SignupFlow::Done,
                Action::Finish(Ok(username)),
            ),
            (SignupFlow::Confirm { .. }, Event::Reply(StoreReply::Failed(_))) => (
                SignupFlow::Done,
                Action::Finish(
                    Err(
                        AppError::plain(
                            ErrorKind::InternalServerError,
                            "an unknown error occurred while processing your request. please try again later.",
                        ),
                    ),
                ),
            ),
            _ => (SignupFlow::Done, Action::Finish(Err(AppError::protocol()))),
        }
    }
}

/// What `resume` comes to for a hasher that answers `hashed`: the step on
/// the reply and, where that asks for a password to be hashed, the step on
/// the hasher's answer.
pub open spec fn signup_resumed(
    flow: SignupFlowView,
    reply: ReplyView,
    hashed: Result<Seq<char>, Seq<char>>,
) -> (SignupFlowView, ActionView<Seq<char>>) {
    let (waiting, asked) = signup_next(flow, EventView::Reply(reply));
    match asked {
        ActionView::Hash { password } => signup_next(waiting, EventView::Hashed(hashed)),
        _ => (waiting, asked),
    }
}

/// The password that `resume` has hashed on the way, if the reply led to
/// one.
pub open spec fn signup_hashed(flow: SignupFlowView, reply: ReplyView) -> Option<Seq<char>> {
    match signup_next(flow, EventView::Reply(reply)).1 {
        ActionView::Hash { password } => Some(password),
        _ => None,
    }
}

impl SignupFlow {
    /// Takes the store's reply, hashes the password where the registration
    /// asks for that, and says which request comes next or how the
    /// registration ended.
    pub fn resume(self, reply: StoreReply) -> (r: (SignupFlow, Action<String>))
        ensures
            !(r.1 is Hash),
            exists|hashed: Result<Seq<char>, Seq<char>>|
                {
                    &&& signup_hashed(self@, reply@) matches Some(password) ==> hashing(
                        password,
                        hashed,
                    )
                    &&& (r.0@, r.1@) == #[trigger] signup_resumed(self@, reply@, hashed)
                },
    {
        let (waiting, asked) = self.step(Event::Reply(reply));
        match asked {
            Action::Hash { password } => {
                let outcome = hash_with_fresh_salt(password.as_str());
                let ghost hashed = texts_view(outcome);
                let r = waiting.step(Event::Hashed(outcome));
                assert((r.0@, r.1@) == signup_resumed(self@, reply@, hashed));
                r
            },
            other => {
                assert((waiting@, other@) == signup_resumed(self@, reply@, Err(Seq::empty())));
                (waiting, other)
            },
        }
    }
}

/// What a registration comes to, and what it leaves in the store, for a
/// hasher that answers `hashed`.
///
/// A payload that breaks a rule is refused, and a name that an account has
/// already is a conflict: the store stays as it is. Otherwise the store gets
/// the record of the new account, with the digest and no session, and the
/// caller gets the name.
pub open spec fn signup_outcome(
    records: Seq<CredentialsView>,
    payload: PayloadView,
    hashed: Result<Seq<char>, Seq<char>>,
) -> (Result<Seq<char>, ErrorView>, Seq<CredentialsView>) {
    if !payload_valid(payload) {
        (Err(validation_error(payload_failures(payload))), records)
    } else if by_username(records, payload.username) is Some {
        (Err(username_taken(payload.username)), records)
    } else {
        match hashed {
            Err(text) => (Err(hash_failed(payload.password, text)), records),
            Ok(digest) => (
                Ok(payload.username),
                records.push(fresh_record(payload.username, digest)),
            ),
        }
    }
}

/// What a registration has come to and left behind. Where the payload is
/// valid and the name is free, the password was hashed: `hashed` is then what
/// the hasher made of it under some salt, and the password matches it.
pub open spec fn signup_post(
    before: Seq<CredentialsView>,
    payload: PayloadView,
    result: Result<Seq<char>, ErrorView>,
    after: Seq<CredentialsView>,
) -> bool {
    exists|hashed: Result<Seq<char>, Seq<char>>|
        {
            &&& payload_valid(payload) && by_username(before, payload.username) is None
                ==> hashing(payload.password, hashed)
            &&& (result, after) == #[trigger] signup_outcome(before, payload, hashed)
        }
}

/// A record that was added to a store without its account is found there.
pub proof fn lemma_registered(records: Seq<CredentialsView>, record: CredentialsView)
    requires
        by_username(records, record.username) is None,
    ensures
        by_username(records.push(record), record.username) == Some(record),
{
    lemma_found(records, record.username);
    let after = records.push(record);
    let i = records.len() as int;
    assert forall|j: int| 0 <= j < i implies (#[trigger] after[j]).username != record.username by {
        assert(after[j] == records[j]);
    }
    assert(username_at(after, record.username, i));
    lemma_username_at(after, record.username, i);
}

/// Registers the account of the payload with the store.
pub fn signup_service(store: &mut CredentialStore, payload: CredentialsPayload) -> (r: Result<
    String,
    AppError,
>)
    ensures
        store_wf(old(store)@),
        store_wf(final(store)@),
        signup_post(old(store)@, payload@, result_view(r), final(store)@),
{
    proof {
        use_type_invariant(&*store);
    }
    let ghost before = store@;
    let ghost mut hashed: Result<Seq<char>, Seq<char>> = Err(Seq::empty());
    let (flow, action) = SignupFlow::begin(payload);
    let (flow, action) = match action {
        Action::Ask(request) => {
            let reply = store.perform(&request);
            let ghost waiting = flow@;
            let r = flow.resume(reply);
            proof {
                hashed = choose|hashed: Result<Seq<char>, Seq<char>>|
                    {
                        &&& signup_hashed(waiting, reply@) matches Some(password) ==> hashing(
                            password,
                            hashed,
                        )
                        &&& (r.0@, r.1@) == #[trigger] signup_resumed(waiting, reply@, hashed)
                    };
            }
            r
        },
        other => (flow, other),
    };
    proof {
        if !payload_valid(payload@) || by_username(before, payload@.username) is Some {
            hashed = Err(Seq::empty());
        } else if let Ok(digest) = hashed {
            lemma_registered(before, fresh_record(payload@.username, digest));
        }
    }
    let (flow, action) = match action {
        Action::Ask(request) => {
            let reply = store.perform(&request);
            flow.step(Event::Reply(reply))
        },
        other => (flow, other),
    };
    let (flow, action) = match action {
        Action::Ask(request) => {
            let reply = store.perform(&request);
            flow.step(Event::Reply(reply))
        },
        other => (flow, other),
    };
    let r = match action {
        Action::Finish(result) => result,
        _ => Err(AppError::protocol()),
    };
    proof {
        use_type_invariant(&*store);
    }
    assert((result_view(r), store@) == signup_outcome(before, payload@, hashed));
    r
}

} // verus!
