//! The operations on points: writing them, reading their vectors back,
//! searching for the nearest, deleting them.

use crate::model::op::{
    prefixed, unexpected_reply, unexpected_reply_text, Operation, Reply, ReplyView, Step, StepView,
};
use crate::model::store::error::{Error, ErrorView, UpdateFailure, UpdateFailureView};
use crate::model::store::vec_wire::{
    lemma_embedding_deep_view, Embedding, IndexReply, IndexReplyView, PointId, PointStructView,
    RetrievedPoint, RetrievedPointView, ScoredPoint, Vectors, VectorsView,
};
use vstd::prelude::*;
use vstd::string::StringExecFns;

verus! {

/// The position of the first item whose vector does not have `dim`
/// components, if there is one.
pub open spec fn first_mismatch(items: Seq<(i64, Seq<u32>)>, dim: u64) -> Option<int> {
    items.map_values(|item: (i64, Seq<u32>)| item.1.len() == dim).index_of_first(false)
}

/// The id under which the index keeps the point of entity `id`: the same 64
/// bits, read as an unsigned number. An id that is not negative is its own
/// point id.
pub open spec fn point_id(id: i64) -> u64 {
    id as u64
}

/// The points that are written for `items`: one per item and in their order.
pub open spec fn points_of(items: Seq<(i64, Seq<u32>)>) -> Seq<PointStructView> {
    items.map_values(
        |item: (i64, Seq<u32>)| PointStructView { id: point_id(item.0), vector: item.1 },
    )
}

/// Ids and vectors as plain mathematical values.
pub open spec fn items_view(items: Seq<(i64, Embedding)>) -> Seq<(i64, Seq<u32>)> {
    items.map_values(|item: (i64, Embedding)| (item.0, item.1@))
}

/// Waiting for the index to acknowledge a write of points.
#[derive(Debug, Clone, Copy, PartialEq, Eq, Structural)]
pub struct UpdatePoints;

impl View for UpdatePoints {
    type V = UpdatePoints;

    open spec fn view(&self) -> UpdatePoints {
        *self
    }
}

impl Operation for UpdatePoints {
    type Output = ();

    type Error = Error;

    /// Success when the index acknowledges; a failed call is an update error
    /// with the client's text, any other reply an update error too.
    open spec fn next(state: UpdatePoints, reply: ReplyView) -> StepView<UpdatePoints, (), ErrorView> {
        match reply {
            ReplyView::Index(IndexReplyView::Done) => StepView::Done(Ok(())),
            ReplyView::Index(IndexReplyView::Failed(text)) => StepView::Done(
                Err(ErrorView::QdrantUpdateError(UpdateFailureView::Remote(text))),
            ),
            _ => StepView::Done(
                Err(ErrorView::QdrantUpdateError(UpdateFailureView::Remote(unexpected_reply()))),
            ),
        }
    }

    fn resume(self, reply: Reply) -> (step: Step<Self, (), Error>) {
        match reply {
            Reply::Index(IndexReply::Done) => Step::Done(Ok(())),
            Reply::Index(IndexReply::Failed(text)) => Step::Done(
                Err(Error::QdrantUpdateError(UpdateFailure::Remote(text))),
            ),
            _ => Step::Done(
                Err(Error::QdrantUpdateError(UpdateFailure::Remote(unexpected_reply_text()))),
            ),
        }
    }
}

/// True when the point carries one unnamed vector.
pub open spec fn has_dense_vector(point: RetrievedPointView) -> bool {
    point.vectors matches Some(VectorsView::Dense(_))
}

/// The unnamed vector of a point that carries one.
pub open spec fn dense_vector(point: RetrievedPointView) -> Seq<u32> {
    match point.vectors {
        Some(VectorsView::Dense(vector)) => vector,
        _ => Seq::empty(),
    }
}

/// The vectors of the points, one per point and in their order, provided that
/// every point carries one unnamed vector.
pub open spec fn embeddings_of(points: Seq<RetrievedPointView>) -> Option<Seq<Seq<u32>>> {
    if forall|i: int| 0 <= i < points.len() ==> has_dense_vector(#[trigger] points[i]) {
        Some(points.map_values(|point: RetrievedPointView| dense_vector(point)))
    } else {
        None
    }
}

/// The text of the error for a returned point without one unnamed vector.
pub open spec fn wrong_vector_type() -> Seq<char> {
    "Wrong vector type"@
}

/// Takes the vectors out of the points of a lookup.
pub fn decode_embeddings(points: Vec<RetrievedPoint>) -> (vectors: Option<Vec<Embedding>>)
    ensures
        match (vectors, embeddings_of(points.deep_view())) {
            (Some(found), Some(expected)) => found.deep_view() == expected,
            (None, None) => true,
            _ => false,
        },
{
    let ghost all = points.deep_view();
    let mut vectors: Vec<Embedding> = Vec::new();
    for point in it: points.into_iter()
        invariant
            it.seq() == points@,
            all == points.deep_view(),
            vectors@.len() == it.index(),
            forall|j: int| 0 <= j < it.index() ==> has_dense_vector(#[trigger] all[j]),
            forall|j: int| 0 <= j < it.index() ==> (#[trigger] vectors@[j])@ == dense_vector(all[j]),
    {
        assert(point@ == all[it.index() as int]);
        match point.vectors {
            Some(Vectors::Dense(vector)) => {
                vectors.push(vector);
            },
            _ => {
                assert(!has_dense_vector(all[it.index() as int]));
                return None;
            },
        }
    }
    proof {
        assert forall|j: int| 0 <= j < vectors@.len() implies #[trigger] vectors.deep_view()[j]
            == dense_vector(all[j]) by {
            lemma_embedding_deep_view(vectors@[j]);
        }
        assert(vectors.deep_view() =~= all.map_values(
            |point: RetrievedPointView| dense_vector(point),
        ));
    }
    Some(vectors)
}

/// Waiting for the points of a lookup.
#[derive(Debug, Clone, Copy, PartialEq, Eq, Structural)]
pub struct GetPointEmbeddings;

impl View for GetPointEmbeddings {
    type V = GetPointEmbeddings;

    open spec fn view(&self) -> GetPointEmbeddings {
        *self
    }
}

impl Operation for GetPointEmbeddings {
    type Output = Vec<Embedding>;

    type Error = Error;

    /// The vectors of the returned points, in the order the index returned
    /// them. A point without one unnamed vector is a fetch error; so are a
    /// failed call, with the client's text, and any other reply.
    open spec fn next(state: GetPointEmbeddings, reply: ReplyView) -> StepView<
        GetPointEmbeddings,
        Seq<Seq<u32>>,
        ErrorView,
    > {
        match reply {
            ReplyView::Index(IndexReplyView::Points(points)) => match embeddings_of(points) {
                Some(vectors) => StepView::Done(Ok(vectors)),
                None => StepView::Done(Err(ErrorView::QdrantFetchError(wrong_vector_type()))),
            },
            ReplyView::Index(IndexReplyView::Failed(text)) => StepView::Done(
                Err(ErrorView::QdrantFetchError(text)),
            ),
            _ => StepView::Done(Err(ErrorView::QdrantFetchError(unexpected_reply()))),
        }
    }

    fn resume(self, reply: Reply) -> (step: Step<Self, Vec<Embedding>, Error>) {
        match reply {
            Reply::Index(IndexReply::Points(points)) => match decode_embeddings(points) {
                Some(vectors) => Step::Done(Ok(vectors)),
                None => Step::Done(
                    Err(Error::QdrantFetchError(String::from_str("Wrong vector type"))),
                ),
            },
            Reply::Index(IndexReply::Failed(text)) => Step::Done(Err(Error::QdrantFetchError(text))),
            _ => Step::Done(Err(Error::QdrantFetchError(unexpected_reply_text()))),
        }
    }
}

/// The id of the entity whose point the index keeps under `id`: the same 64
/// bits, read as a signed number.
pub open spec fn entity_id(id: u64) -> i64 {
    id as i64
}

/// What a hit contributes to the result of a search: its entity id and its
/// score if its id is a number, nothing otherwise.
pub open spec fn scored(hit: ScoredPoint) -> Option<(i64, u32)> {
    match hit.id {
        Some(PointId::Num(id)) => Some((entity_id(id), hit.score)),
        _ => None,
    }
}

/// The result of a search with these hits: the hits with a numeric id, in
/// their order, provided that every hit has an id.
pub open spec fn scores_of(hits: Seq<ScoredPoint>) -> Option<Seq<(i64, u32)>> {
    if forall|i: int| 0 <= i < hits.len() ==> (#[trigger] hits[i]).id is Some {
        Some(hits.filter_map(|hit: ScoredPoint| scored(hit)))
    } else {
        None
    }
}

/// The text of the error for a hit without an id.
pub open spec fn missing_point_id() -> Seq<char> {
    "Point without an id"@
}

/// Takes ids and scores out of the hits of a search.
pub fn decode_scores(hits: Vec<ScoredPoint>) -> (scores: Option<Vec<(i64, u32)>>)
    ensures
        match (scores, scores_of(hits@)) {
            (Some(found), Some(expected)) => found.deep_view() == expected,
            (None, None) => true,
            _ => false,
        },
{
    let ghost pick = |hit: ScoredPoint| scored(hit);
    let mut scores: Vec<(i64, u32)> = Vec::new();
    let mut i: usize = 0;
    while i < hits.len()
        invariant
            i <= hits.len(),
            pick == |hit: ScoredPoint| scored(hit),
            forall|j: int| 0 <= j < i ==> (#[trigger] hits@[j]).id is Some,
            scores@ == hits@.take(i as int).filter_map(pick),
        decreases hits.len() - i,
    {
        let hit = hits[i];
        proof {
            hits@.lemma_filter_map_take_succ(pick, i as int);
        }
        match hit.id {
            Some(PointId::Num(id)) => {
                scores.push((#[verifier::truncate] (id as i64), hit.score));
            },
            Some(PointId::Uuid) => {},
            None => {
                return None;
            },
        }
        i += 1;
    }
    proof {
        assert(hits@.take(i as int) =~= hits@);
        assert(scores.deep_view() =~= scores@);
    }
    Some(scores)
}

/// Waiting for the hits of a search.
#[derive(Debug, Clone, Copy, PartialEq, Eq, Structural)]
pub struct SearchPoints;

impl View for SearchPoints {
    type V = SearchPoints;

    open spec fn view(&self) -> SearchPoints {
        *self
    }
}

impl Operation for SearchPoints {
    type Output = Vec<(i64, u32)>;

    type Error = Error;

    /// Entity id and score of every hit with a numeric id, in the order the
    /// index ranked them. A hit without an id is a fetch error; so are a
    /// failed call, with the client's text, and any other reply.
    open spec fn next(state: SearchPoints, reply: ReplyView) -> StepView<
        SearchPoints,
        Seq<(i64, u32)>,
        ErrorView,
    > {
        match reply {
            ReplyView::Index(IndexReplyView::Hits(hits)) => match scores_of(hits) {
                Some(scores) => StepView::Done(Ok(scores)),
                None => StepView::Done(Err(ErrorView::QdrantFetchError(missing_point_id()))),
            },
            ReplyView::Index(IndexReplyView::Failed(text)) => StepView::Done(
                Err(ErrorView::QdrantFetchError(text)),
            ),
            _ => StepView::Done(Err(ErrorView::QdrantFetchError(unexpected_reply()))),
        }
    }

    fn resume(self, reply: Reply) -> (step: Step<Self, Vec<(i64, u32)>, Error>) {
        match reply {
            Reply::Index(IndexReply::Hits(hits)) => match decode_scores(hits) {
                Some(scores) => Step::Done(Ok(scores)),
                None => Step::Done(
                    Err(Error::QdrantFetchError(String::from_str("Point without an id"))),
                ),
            },
            Reply::Index(IndexReply::Failed(text)) => Step::Done(Err(Error::QdrantFetchError(text))),
            _ => Step::Done(Err(Error::QdrantFetchError(unexpected_reply_text()))),
        }
    }
}

/// Waiting for the index to drop points.
#[derive(Debug, Clone, Copy, PartialEq, Eq, Structural)]
pub struct DeletePoints;

impl View for DeletePoints {
    type V = DeletePoints;

    open spec fn view(&self) -> DeletePoints {
        *self
    }
}

/// The text of the error for points that could not be deleted.
pub open spec fn delete_points_failure(cause: Seq<char>) -> Seq<char> {
    "Failed to delete points: "@ + cause
}

impl Operation for DeletePoints {
    type Output = ();

    type Error = Error;

    /// Success when the index acknowledges; a failed call is a delete error
    /// with the client's text, any other reply a delete error too.
    open spec fn next(state: DeletePoints, reply: ReplyView) -> StepView<DeletePoints, (), ErrorView> {
        match reply {
            ReplyView::Index(IndexReplyView::Done) => StepView::Done(Ok(())),
            ReplyView::Index(IndexReplyView::Failed(text)) => StepView::Done(
                Err(ErrorView::QdrantDeleteError(delete_points_failure(text))),
            ),
            _ => StepView::Done(
                Err(ErrorView::QdrantDeleteError(delete_points_failure(unexpected_reply()))),
            ),
        }
    }

    fn resume(self, reply: Reply) -> (step: Step<Self, (), Error>) {
        match reply {
            Reply::Index(IndexReply::Done) => Step::Done(Ok(())),
            Reply::Index(IndexReply::Failed(text)) => Step::Done(
                Err(Error::QdrantDeleteError(prefixed("Failed to delete points: ", text.as_str()))),
            ),
            _ => Step::Done(
                Err(
                    Error::QdrantDeleteError(
                        prefixed("Failed to delete points: ", unexpected_reply_text().as_str()),
                    ),
                ),
            ),
        }
    }
}

} // verus!
