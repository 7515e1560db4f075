//! The model layer: the stores, the embedder and the entity coordinators.

pub mod embedder;
pub mod error;
pub mod op;
pub mod startup_laws;
pub mod store;
pub mod task;
pub mod task_laws;
pub mod world;

use self::embedder::{OpenAIEmbedder, OpenAIEmbedderView};
use self::error::ErrorView;
use self::op::{
    unexpected_reply, unexpected_reply_text, Operation, Reply, ReplyView, Request, RequestView,
    Step, StepView,
};
use self::store::db_store::{DbReply, DbReplyView, DbRequest, DbRequestView};
use self::store::bootstrap::{Bootstrap, BootstrapView};
use self::store::vec_store::VecStoreView;
use crate::config::{Config, ConfigView};
use vstd::prelude::*;

pub use self::error::{Error, Result};
pub use self::store::VecStore;

verus! {

/// What every coordinator works with: the vector store manager and the
/// embedder. Both are made once, at startup.
#[derive(Debug, Clone)]
pub struct ModelManager {
    pub vs: VecStore,
    pub embedder: OpenAIEmbedder,
}

/// `ModelManager` as plain mathematical values.
pub struct ModelManagerView {
    pub vs: VecStoreView,
    pub embedder: OpenAIEmbedderView,
}

impl View for ModelManager {
    type V = ModelManagerView;

    open spec fn view(&self) -> ModelManagerView {
        ModelManagerView { vs: self.vs@, embedder: self.embedder@ }
    }
}

impl DeepView for ModelManager {
    type V = ModelManagerView;

    open spec fn deep_view(&self) -> ModelManagerView {
        self@
    }
}

impl ModelManager {
    /// A bundle of copies of the two parts.
    pub fn duplicate(&self) -> (copy: Self)
        ensures
            copy@ == self@,
    {
        ModelManager { vs: self.vs.duplicate(), embedder: self.embedder.duplicate() }
    }
}

/// Where the startup of the model layer stands.
#[derive(Debug, Clone)]
pub enum Startup {
    /// The vector store manager is being brought up.
    Indexing { db_url: String, embedder: OpenAIEmbedder, pending: Bootstrap },
    /// The manager is up; waiting for the connection pool of the relational
    /// store.
    Pooling { vs: VecStore, embedder: OpenAIEmbedder },
}

/// `Startup` as plain mathematical values.
pub enum StartupView {
    Indexing { db_url: Seq<char>, embedder: OpenAIEmbedderView, pending: BootstrapView },
    Pooling { vs: VecStoreView, embedder: OpenAIEmbedderView },
}

impl View for Startup {
    type V = StartupView;

    open spec fn view(&self) -> StartupView {
        match self {
            Startup::Indexing { db_url, embedder, pending } => StartupView::Indexing {
                db_url: db_url@,
                embedder: embedder@,
                pending: pending@,
            },
            Startup::Pooling { vs, embedder } => StartupView::Pooling {
                vs: vs@,
                embedder: embedder@,
            },
        }
    }
}

/// A step of the bootstrap of the vector store manager, seen as a step of
/// the startup: once the manager is up the pool is asked for.
pub open spec fn indexing(
    db_url: Seq<char>,
    embedder: OpenAIEmbedderView,
    step: StepView<BootstrapView, VecStoreView, store::error::ErrorView>,
) -> StepView<StartupView, ModelManagerView, ErrorView> {
    match step {
        StepView::Call(pending, request) => StepView::Call(
            StartupView::Indexing { db_url, embedder, pending },
            request,
        ),
        StepView::Done(Ok(vs)) => StepView::Call(
            StartupView::Pooling { vs, embedder },
            RequestView::Db(DbRequestView::Connect { url: db_url }),
        ),
        StepView::Done(Err(error)) => StepView::Done(Err(ErrorView::Store(error))),
    }
}

impl Startup {
    fn indexing(
        db_url: String,
        embedder: OpenAIEmbedder,
        step: Step<Bootstrap, VecStore, store::Error>,
    ) -> (next: Step<Startup, ModelManager, Error>)
        ensures
            next@ == indexing(db_url@, embedder@, step@),
    {
        match step {
            Step::Call(pending, request) => Step::Call(
                Startup::Indexing { db_url, embedder, pending },
                request,
            ),
            Step::Done(Ok(vs)) => Step::Call(
                Startup::Pooling { vs, embedder },
                Request::Db(DbRequest::Connect { url: db_url }),
            ),
            Step::Done(Err(error)) => Step::Done(Err(Error::Store(error))),
        }
    }
}

impl Operation for Startup {
    type Output = ModelManager;

    type Error = Error;

    /// First the vector store manager is brought up, as
    /// `VecStore::from_config` does it; then the pool of the relational store
    /// is opened. The result bundles the manager with the embedder. A pool
    /// that cannot be opened is a store failure with the driver's text.
    open spec fn next(state: StartupView, reply: ReplyView) -> StepView<
        StartupView,
        ModelManagerView,
        ErrorView,
    > {
        match state {
            StartupView::Indexing { db_url, embedder, pending } => indexing(
                db_url,
                embedder,
                Bootstrap::next(pending, reply),
            ),
            StartupView::Pooling { vs, embedder } => match reply {
                ReplyView::Db(DbReplyView::Connected) => StepView::Done(
                    Ok(ModelManagerView { vs, embedder }),
                ),
                ReplyView::Db(DbReplyView::Unreachable(text)) => StepView::Done(
                    Err(ErrorView::Store(store::error::ErrorView::FailToCreatePool(text))),
                ),
                _ => StepView::Done(
                    Err(
                        ErrorView::Store(
                            store::error::ErrorView::FailToCreatePool(unexpected_reply()),
                        ),
                    ),
                ),
            },
        }
    }

    fn resume(self, reply: Reply) -> (step: Step<Self, ModelManager, Error>) {
        match self {
            Startup::Indexing { db_url, embedder, pending } => Self::indexing(
                db_url,
                embedder,
                pending.resume(reply),
            ),
            Startup::Pooling { vs, embedder } => match reply {
                Reply::Db(DbReply::Connected) => Step::Done(Ok(ModelManager { vs, embedder })),
                Reply::Db(DbReply::Unreachable(text)) => Step::Done(
                    Err(Error::Store(store::Error::FailToCreatePool(text))),
                ),
                _ => Step::Done(
                    Err(Error::Store(store::Error::FailToCreatePool(unexpected_reply_text()))),
                ),
            },
        }
    }
}

impl ModelManager {
    /// Brings the model layer up from the configuration: the vector store
    /// manager with its collections, the pool of the relational store, and
    /// the embedder for the configured model.
    pub fn from_config(config: &Config) -> (step: Step<Startup, ModelManager, Error>)
        requires
            config@.qdrant.collections.len() > 0,
        ensures
            step@ == Self::spec_from_config(config@),
    {
        Startup::indexing(
            config.database.db_url.clone(),
            OpenAIEmbedder::from_config(&config.openai_embedder),
            VecStore::from_config(&config.qdrant),
        )
    }

    /// What `from_config` returns, as a mathematical function of its arguments.
    pub open spec fn spec_from_config(config: ConfigView) -> StepView<
        StartupView,
        ModelManagerView,
        ErrorView,
    > {
        indexing(
            config.db_url,
            OpenAIEmbedderView { model: config.model },
            VecStore::spec_from_config(config.qdrant),
        )
    }
}

} // verus!
