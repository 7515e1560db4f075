//! Operations that need the outside world, written so that they never touch it.
//!
//! An operation is a value. Started, it either is done at once or names one
//! request and the state to come back to. Whoever runs it performs the
//! request, hands the reply to `resume`, and goes on until the operation is
//! done. What an operation decides at each reply is a mathematical function,
//! `next`, that the executable `resume` is proved to compute.

use crate::model::embedder::{EmbedReply, EmbedReplyView, EmbedRequest, EmbedRequestView};
use crate::model::store::db_store::{DbReply, DbReplyView, DbRequest, DbRequestView};
use crate::model::store::vec_wire::{IndexReply, IndexReplyView, IndexRequest, IndexRequestView};
use vstd::prelude::*;
use vstd::string::StringExecFns;

verus! {

/// A request to one of the three outside services.
#[derive(Debug, Clone, PartialEq, Eq)]
pub enum Request {
    Index(IndexRequest),
    Db(DbRequest),
    Embed(EmbedRequest),
}

/// The reply of the service that was asked.
#[derive(Debug, Clone, PartialEq, Eq)]
pub enum Reply {
    Index(IndexReply),
    Db(DbReply),
    Embed(EmbedReply),
}

/// `Request` as plain mathematical values.
pub enum RequestView {
    Index(IndexRequestView),
    Db(DbRequestView),
    Embed(EmbedRequestView),
}

/// `Reply` as plain mathematical values.
pub enum ReplyView {
    Index(IndexReplyView),
    Db(DbReplyView),
    Embed(EmbedReplyView),
}

impl View for Request {
    type V = RequestView;

    open spec fn view(&self) -> RequestView {
        match self {
            Request::Index(request) => RequestView::Index(request@),
            Request::Db(request) => RequestView::Db(request@),
            Request::Embed(request) => RequestView::Embed(request@),
        }
    }
}

impl View for Reply {
    type V = ReplyView;

    open spec fn view(&self) -> ReplyView {
        match self {
            Reply::Index(reply) => ReplyView::Index(reply@),
            Reply::Db(reply) => ReplyView::Db(reply@),
            Reply::Embed(reply) => ReplyView::Embed(reply@),
        }
    }
}

/// Where an operation stands: waiting for the reply to a request, or done.
#[derive(Debug)]
pub enum Step<S, T, E> {
    /// Perform the request and hand its reply to `resume` of the state.
    Call(S, Request),
    /// The operation is over, with this outcome.
    Done(core::result::Result<T, E>),
}

/// `Step` as plain mathematical values.
pub enum StepView<S, T, E> {
    Call(S, RequestView),
    Done(core::result::Result<T, E>),
}

impl<S: View, T: DeepView, E: View> View for Step<S, T, E> {
    type V = StepView<S::V, T::V, E::V>;

    open spec fn view(&self) -> StepView<S::V, T::V, E::V> {
        match self {
            Step::Call(state, request) => StepView::Call(state@, request@),
            Step::Done(Ok(value)) => StepView::Done(Ok(value.deep_view())),
            Step::Done(Err(error)) => StepView::Done(Err(error@)),
        }
    }
}

/// The text that stands for a reply of a kind that the pending request cannot
/// have.
pub open spec fn unexpected_reply() -> Seq<char> {
    "unexpected reply"@
}

/// The text of `unexpected_reply`, as a `String`.
pub fn unexpected_reply_text() -> (text: String)
    ensures
        text@ == unexpected_reply(),
{
    String::from_str("unexpected reply")
}

/// `prefix` followed by `text`.
pub fn prefixed(prefix: &str, text: &str) -> (joined: String)
    ensures
        joined@ == prefix@ + text@,
{
    String::from_str(prefix).concat(text)
}

/// The state of an operation that waits for a reply.
pub trait Operation: View + Sized {
    /// What the operation returns when it succeeds.
    type Output: DeepView;

    /// What it returns when it fails.
    type Error: View;

    /// What the operation does with a reply, as a function of its state.
    spec fn next(state: Self::V, reply: ReplyView) -> StepView<
        Self::V,
        <Self::Output as DeepView>::V,
        <Self::Error as View>::V,
    >;

    /// Takes the reply to the pending request and decides what comes next.
    fn resume(self, reply: Reply) -> (step: Step<Self, Self::Output, Self::Error>)
        ensures
            step@ == Self::next(self@, reply@),
    ;
}

} // verus!
