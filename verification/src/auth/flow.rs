use vstd::prelude::*;

use crate::auth::codec::{verified_view, Verified, VerifiedView};
use crate::auth::store::{ReplyView, RequestView, StoreReply, StoreRequest};
use crate::errors::{AppError, ErrorView};

verus! {

/// The text of an optional string.
pub open spec fn text(value: Option<String>) -> Option<Seq<char>> {
    match value {
        Some(s) => Some(s@),
        None => None,
    }
}

/// What an operation is told next: the answer to what it last asked for.
#[derive(Debug, PartialEq, Eq)]
pub enum Event {
    /// The store's answer to a request.
    Reply(StoreReply),
    /// What verifying a token came to.
    Decoded(Verified),
    /// What hashing a password came to: the digest, or the hasher's words.
    Hashed(Result<String, String>),
}

pub ghost enum EventView {
    Reply(ReplyView),
    Decoded(VerifiedView),
    Hashed(Result<Seq<char>, Seq<char>>),
}

/// The texts of what a call came to.
pub open spec fn texts_view(outcome: Result<String, String>) -> Result<Seq<char>, Seq<char>> {
    match outcome {
        Ok(value) => Ok(value@),
        Err(text) => Err(text@),
    }
}

impl View for Event {
    type V = EventView;

    open spec fn view(&self) -> EventView {
        match *self {
            Event::Reply(reply) => EventView::Reply(reply@),
            Event::Decoded(verified) => EventView::Decoded(verified_view(verified)),
            Event::Hashed(outcome) => EventView::Hashed(texts_view(outcome)),
        }
    }
}

/// What an operation wants done next.
#[derive(Debug, PartialEq, Eq)]
pub enum Action<T> {
    /// Put this request to the store and come back with its reply.
    Ask(StoreRequest),
    /// Verify this token against the refresh secret and come back with what
    /// it came to.
    Decode { token: String },
    /// Hash this password with a fresh salt and come back with what it came
    /// to.
    Hash { password: String },
    /// The operation is over, with this result.
    Finish(Result<T, AppError>),
}

pub ghost enum ActionView<V> {
    Ask(RequestView),
    Decode { token: Seq<char> },
    Hash { password: Seq<char> },
    Finish(Result<V, ErrorView>),
}

pub open spec fn result_view<T: View>(result: Result<T, AppError>) -> Result<T::V, ErrorView> {
    match result {
        Ok(value) => Ok(value@),
        Err(e) => Err(e@),
    }
}

impl<T: View> View for Action<T> {
    type V = ActionView<T::V>;

    open spec fn view(&self) -> ActionView<T::V> {
        match *self {
            Action::Ask(request) => ActionView::Ask(request@),
            Action::Decode { token } => ActionView::Decode { token: token@ },
            Action::Hash { password } => ActionView::Hash { password: password@ },
            Action::Finish(result) => ActionView::Finish(result_view(result)),
        }
    }
}

} // verus!
