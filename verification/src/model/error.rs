//! What an operation of the model layer can fail with.

use crate::model::embedder;
use crate::model::store;
use vstd::prelude::*;

verus! {

pub type Result<T> = core::result::Result<T, Error>;

/// A failure of the model layer.
#[derive(Debug, Clone, PartialEq, Eq)]
pub enum Error {
    /// The relational store has no row `id` for the entity type `entity`.
    EntityNotFound { entity: &'static str, id: i64 },
    /// The pool or the vector index failed.
    Store(store::Error),
    /// The embedding service failed.
    Embedder(embedder::Error),
    /// The relational store failed; the text is the driver's account of it.
    Sqlx(String),
}

/// `Error` as plain mathematical values.
pub enum ErrorView {
    EntityNotFound { entity: Seq<char>, id: i64 },
    Store(store::error::ErrorView),
    Embedder(embedder::error::ErrorView),
    Sqlx(Seq<char>),
}

impl View for Error {
    type V = ErrorView;

    open spec fn view(&self) -> ErrorView {
        match self {
            Error::EntityNotFound { entity, id } => ErrorView::EntityNotFound {
                entity: entity@,
                id: *id,
            },
            Error::Store(error) => ErrorView::Store(error@),
            Error::Embedder(error) => ErrorView::Embedder(error@),
            Error::Sqlx(text) => ErrorView::Sqlx(text@),
        }
    }
}

} // verus!
