//! What can go wrong between the core and its two stores.

use vstd::prelude::*;

verus! {

pub type Result<T> = core::result::Result<T, Error>;

/// Why a write of points was not made.
#[derive(Debug, Clone, PartialEq, Eq)]
pub enum UpdateFailure {
    /// The vector of point `id` has `found` components where the collection
    /// takes `expected`. Nothing was sent to the index.
    DimensionMismatch { id: i64, expected: u64, found: u64 },
    /// The index was asked and did not acknowledge; the text is its answer.
    Remote(String),
}

/// A failure of the relational pool or of the vector index.
#[derive(Debug, Clone, PartialEq, Eq)]
pub enum Error {
    FailToCreatePool(String),
    QdrantUrlNotFound(String),
    InvalidDistanceName(String),
    QdrantCreateError(String),
    QdrantFetchError(String),
    QdrantUpdateError(UpdateFailure),
    QdrantDeleteError(String),
}

/// `UpdateFailure` as plain mathematical values.
pub enum UpdateFailureView {
    DimensionMismatch { id: i64, expected: u64, found: u64 },
    Remote(Seq<char>),
}

/// `Error` as plain mathematical values.
pub enum ErrorView {
    FailToCreatePool(Seq<char>),
    QdrantUrlNotFound(Seq<char>),
    InvalidDistanceName(Seq<char>),
    QdrantCreateError(Seq<char>),
    QdrantFetchError(Seq<char>),
    QdrantUpdateError(UpdateFailureView),
    QdrantDeleteError(Seq<char>),
}

impl View for UpdateFailure {
    type V = UpdateFailureView;

    open spec fn view(&self) -> UpdateFailureView {
        match self {
            UpdateFailure::DimensionMismatch { id, expected, found } => {
                UpdateFailureView::DimensionMismatch { id: *id, expected: *expected, found: *found }
            },
            UpdateFailure::Remote(text) => UpdateFailureView::Remote(text@),
        }
    }
}

impl View for Error {
    type V = ErrorView;

    open spec fn view(&self) -> ErrorView {
        match self {
            Error::FailToCreatePool(text) => ErrorView::FailToCreatePool(text@),
            Error::QdrantUrlNotFound(text) => ErrorView::QdrantUrlNotFound(text@),
            Error::InvalidDistanceName(text) => ErrorView::InvalidDistanceName(text@),
            Error::QdrantCreateError(text) => ErrorView::QdrantCreateError(text@),
            Error::QdrantFetchError(text) => ErrorView::QdrantFetchError(text@),
            Error::QdrantUpdateError(failure) => ErrorView::QdrantUpdateError(failure@),
            Error::QdrantDeleteError(text) => ErrorView::QdrantDeleteError(text@),
        }
    }
}

impl Error {
    /// True exactly for a write refused because a vector had the wrong length.
    pub fn is_dimension_mismatch(&self) -> (yes: bool)
        ensures
            yes <==> self@ matches ErrorView::QdrantUpdateError(
                UpdateFailureView::DimensionMismatch { .. },
            ),
    {
        match self {
            Error::QdrantUpdateError(UpdateFailure::DimensionMismatch { .. }) => true,
            _ => false,
        }
    }
}

} // verus!
