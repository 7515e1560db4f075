//! The embedding capability: text in, vector out.

pub mod error;
pub mod laws;

use crate::config;
use crate::model::op::{
    unexpected_reply, unexpected_reply_text, Operation, Reply, ReplyView, Request, RequestView,
    Step, StepView,
};
use crate::model::store::vec_wire::{lemma_embedding_deep_view, Embedding};
use vstd::prelude::*;
use vstd::string::StringExecFns;

pub use self::error::{Error, Result};

verus! {

/// What the core asks of the embedding service: one vector per text of
/// `input`, computed by `model`.
#[derive(Debug, Clone, PartialEq, Eq)]
pub struct EmbedRequest {
    pub model: String,
    pub input: Vec<String>,
}

/// What the embedding service answered.
#[derive(Debug, Clone, PartialEq, Eq)]
pub enum EmbedReply {
    /// The request could not be built or sent, or was refused; the text is the
    /// client's account of it.
    Failed(String),
    /// The vectors of the response, in the order the service listed them.
    Data(Vec<Embedding>),
}

/// `EmbedRequest` as plain mathematical values.
pub struct EmbedRequestView {
    pub model: Seq<char>,
    pub input: Seq<Seq<char>>,
}

/// `EmbedReply` as plain mathematical values.
pub enum EmbedReplyView {
    Failed(Seq<char>),
    Data(Seq<Seq<u32>>),
}

impl View for EmbedRequest {
    type V = EmbedRequestView;

    open spec fn view(&self) -> EmbedRequestView {
        EmbedRequestView { model: self.model@, input: self.input.deep_view() }
    }
}

impl View for EmbedReply {
    type V = EmbedReplyView;

    open spec fn view(&self) -> EmbedReplyView {
        match self {
            EmbedReply::Failed(text) => EmbedReplyView::Failed(text@),
            EmbedReply::Data(vectors) => EmbedReplyView::Data(vectors.deep_view()),
        }
    }
}

/// The embedder that asks an OpenAI model.
#[derive(Debug, Clone)]
pub struct OpenAIEmbedder {
    pub model: String,
}

/// `OpenAIEmbedder` as plain mathematical values.
pub struct OpenAIEmbedderView {
    pub model: Seq<char>,
}

impl View for OpenAIEmbedder {
    type V = OpenAIEmbedderView;

    open spec fn view(&self) -> OpenAIEmbedderView {
        OpenAIEmbedderView { model: self.model@ }
    }
}

/// Waiting for the vectors of several texts.
#[derive(Debug, Clone, Copy, PartialEq, Eq, Structural)]
pub struct EmbedMany;

impl View for EmbedMany {
    type V = EmbedMany;

    open spec fn view(&self) -> EmbedMany {
        *self
    }
}

impl Operation for EmbedMany {
    type Output = Vec<Embedding>;

    type Error = Error;

    /// The vectors as the service listed them; a failed request is a request
    /// error with the client's text, any other reply a request error too.
    open spec fn next(state: EmbedMany, reply: ReplyView) -> StepView<
        EmbedMany,
        Seq<Seq<u32>>,
        error::ErrorView,
    > {
        match reply {
            ReplyView::Embed(EmbedReplyView::Data(vectors)) => StepView::Done(Ok(vectors)),
            ReplyView::Embed(EmbedReplyView::Failed(text)) => StepView::Done(
                Err(error::ErrorView::OpenAIEmbedderRequestError(text)),
            ),
            _ => StepView::Done(
                Err(error::ErrorView::OpenAIEmbedderRequestError(unexpected_reply())),
            ),
        }
    }

    fn resume(self, reply: Reply) -> (step: Step<Self, Vec<Embedding>, Error>) {
        match reply {
            Reply::Embed(EmbedReply::Data(vectors)) => Step::Done(Ok(vectors)),
            Reply::Embed(EmbedReply::Failed(text)) => Step::Done(
                Err(Error::OpenAIEmbedderRequestError(text)),
            ),
            _ => Step::Done(Err(Error::OpenAIEmbedderRequestError(unexpected_reply_text()))),
        }
    }
}

/// Waiting for the vector of one text.
#[derive(Debug, Clone, Copy, PartialEq, Eq, Structural)]
pub struct EmbedOne;

impl View for EmbedOne {
    type V = EmbedOne;

    open spec fn view(&self) -> EmbedOne {
        *self
    }
}

/// The text of the error for a response that lists no vector.
pub open spec fn empty_response() -> Seq<char> {
    "OpenAIEmbedder::embed: response.data.first() is None"@
}

impl Operation for EmbedOne {
    type Output = Embedding;

    type Error = Error;

    /// The first vector that the service listed. A response that lists none
    /// is a request error; so are a failed request, with the client's text,
    /// and any other reply.
    open spec fn next(state: EmbedOne, reply: ReplyView) -> StepView<
        EmbedOne,
        Seq<u32>,
        error::ErrorView,
    > {
        match reply {
            ReplyView::Embed(EmbedReplyView::Data(vectors)) => if vectors.len() > 0 {
                StepView::Done(Ok(vectors[0]))
            } else {
                StepView::Done(Err(error::ErrorView::OpenAIEmbedderRequestError(empty_response())))
            },
            ReplyView::Embed(EmbedReplyView::Failed(text)) => StepView::Done(
                Err(error::ErrorView::OpenAIEmbedderRequestError(text)),
            ),
            _ => StepView::Done(
                Err(error::ErrorView::OpenAIEmbedderRequestError(unexpected_reply())),
            ),
        }
    }

    fn resume(self, reply: Reply) -> (step: Step<Self, Embedding, Error>) {
        match reply {
            Reply::Embed(EmbedReply::Data(vectors)) => {
                let mut vectors = vectors;
                if vectors.len() > 0 {
                    let ghost all = vectors.deep_view();
                    let first = vectors.swap_remove(0);
                    proof {
                        lemma_embedding_deep_view(first);
                        assert(first.deep_view() == all[0]);
                    }
                    Step::Done(Ok(first))
                } else {
                    Step::Done(
                        Err(
                            Error::OpenAIEmbedderRequestError(
                                String::from_str(
                                    "OpenAIEmbedder::embed: response.data.first() is None",
                                ),
                            ),
                        ),
                    )
                }
            },
            Reply::Embed(EmbedReply::Failed(text)) => Step::Done(
                Err(Error::OpenAIEmbedderRequestError(text)),
            ),
            _ => Step::Done(Err(Error::OpenAIEmbedderRequestError(unexpected_reply_text()))),
        }
    }
}

impl OpenAIEmbedder {
    /// The embedder for the configured model.
    pub fn from_config(config: &config::OpenAIEmbedder) -> (embedder: Self)
        ensures
            embedder@.model == config.model@,
    {
        OpenAIEmbedder { model: config.model.clone() }
    }

    /// An embedder for the same model.
    pub fn duplicate(&self) -> (copy: Self)
        ensures
            copy@ == self@,
    {
        OpenAIEmbedder { model: self.model.clone() }
    }

    /// Asks for the vectors of `texts`, one per text and in their order.
    pub fn embeds(&self, texts: Vec<String>) -> (step: Step<EmbedMany, Vec<Embedding>, Error>)
        ensures
            step@ == Self::spec_embeds(self@, texts.deep_view()),
    {
        Step::Call(
            EmbedMany,
            Request::Embed(EmbedRequest { model: self.model.clone(), input: texts }),
        )
    }

    /// What `embeds` returns, as a mathematical function of its arguments.
    pub open spec fn spec_embeds(embedder: OpenAIEmbedderView, texts: Seq<Seq<char>>) -> StepView<
        EmbedMany,
        Seq<Seq<u32>>,
        error::ErrorView,
    > {
        StepView::Call(
            EmbedMany,
            RequestView::Embed(EmbedRequestView { model: embedder.model, input: texts }),
        )
    }

    /// Asks for the vector of `text`.
    pub fn embed(&self, text: &str) -> (step: Step<EmbedOne, Embedding, Error>)
        ensures
            step@ == Self::spec_embed(self@, text@),
    {
        let mut input: Vec<String> = Vec::new();
        input.push(String::from_str(text));
        assert(input.deep_view() =~= seq![text@]);
        Step::Call(EmbedOne, Request::Embed(EmbedRequest { model: self.model.clone(), input }))
    }

    /// What `embed` returns, as a mathematical function of its arguments.
    pub open spec fn spec_embed(embedder: OpenAIEmbedderView, text: Seq<char>) -> StepView<
        EmbedOne,
        Seq<u32>,
        error::ErrorView,
    > {
        StepView::Call(
            EmbedOne,
            RequestView::Embed(EmbedRequestView { model: embedder.model, input: seq![text] }),
        )
    }
}

} // verus!
