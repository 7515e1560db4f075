//! What can go wrong when an embedding is asked for.

use vstd::prelude::*;

verus! {

pub type Result<T> = core::result::Result<T, Error>;

/// The embedding service could not be asked, refused, or answered with
/// nothing usable. The text says which.
#[derive(Debug, Clone, PartialEq, Eq)]
pub enum Error {
    OpenAIEmbedderRequestError(String),
}

/// `Error` as plain mathematical values.
pub enum ErrorView {
    OpenAIEmbedderRequestError(Seq<char>),
}

impl View for Error {
    type V = ErrorView;

    open spec fn view(&self) -> ErrorView {
        match self {
            Error::OpenAIEmbedderRequestError(text) => ErrorView::OpenAIEmbedderRequestError(text@),
        }
    }
}

} // verus!
