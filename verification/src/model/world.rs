//! The outside services as mathematics.
//!
//! The core never sees the vector index, the relational store or the
//! embedding service; it sees their replies. This module says which replies
//! services that work as documented can give to a request, and what the
//! request does to what they hold. The laws of the core are proved for every
//! such reply. A request that fails is taken to have changed nothing.
//! Nothing here is executable.

use crate::model::embedder::{EmbedReplyView, EmbedRequestView};
use crate::model::op::{Operation, ReplyView, RequestView, StepView};
use crate::model::store::db_store::{DbReplyView, DbRequestView, RowView};
use crate::model::store::vec_wire::{
    at_least_as_near, Distance, IndexReplyView, IndexRequestView, PointId, PointStructView,
    RetrievedPointView, ScoredPoint, VectorsView,
};
use vstd::prelude::*;

verus! {

/// The vectors of a collection, by point id.
pub type Points = Map<u64, Seq<u32>>;

/// A collection of the vector index.
pub struct Collection {
    pub dim: u64,
    pub distance: Distance,
    pub points: Points,
}

/// The vector index: its collections by name.
pub type Index = Map<Seq<char>, Collection>;

/// A table of the relational store: the text of each row by id.
pub type Table = Map<i64, Seq<char>>;

/// Everything outside the core.
pub struct World {
    pub index: Index,
    pub tables: Map<Seq<char>, Table>,
    /// The length of every vector that the embedding service returns.
    pub embedding_dim: nat,
}

/// A collection as it is right after its creation.
pub open spec fn fresh(dim: u64, distance: Distance) -> Collection {
    Collection { dim, distance, points: Map::empty() }
}

/// The points after `written` has been applied in order: a later point
/// replaces an earlier one of the same id.
pub open spec fn upserted(points: Points, written: Seq<PointStructView>) -> Points {
    written.fold_left(
        points,
        |held: Points, point: PointStructView| held.insert(point.id, point.vector),
    )
}

/// True when every point of `written` has a vector of `dim` components.
pub open spec fn all_of_dim(written: Seq<PointStructView>, dim: u64) -> bool {
    forall|i: int| 0 <= i < written.len() ==> (#[trigger] written[i]).vector.len() == dim
}

/// What a lookup returns: the points among `ids` that the collection holds,
/// in the order of `ids`.
pub open spec fn retrieved(points: Points, ids: Seq<u64>) -> Seq<RetrievedPointView> {
    ids.filter(|id: u64| points.contains_key(id)).map_values(
        |id: u64|
            RetrievedPointView {
                id: Some(PointId::Num(id)),
                vectors: Some(VectorsView::Dense(points[id])),
            },
    )
}

/// What can be said of the hits of a search without computing a score:
/// there are at most `limit`, each is a point of the collection, none comes
/// twice, they come nearest first, and fewer than `limit` come only when
/// every point is among them.
pub open spec fn hits_admitted(
    points: Points,
    distance: Distance,
    limit: u64,
    hits: Seq<ScoredPoint>,
) -> bool {
    &&& hits.len() <= limit
    &&& forall|i: int|
        0 <= i < hits.len() ==> ((#[trigger] hits[i]).id matches Some(PointId::Num(id))
            && points.contains_key(id))
    &&& forall|i: int, j: int| 0 <= i < j < hits.len() ==> hits[i].id != hits[j].id
    &&& forall|i: int, j: int|
        0 <= i < j < hits.len() ==> at_least_as_near(
            distance,
            (#[trigger] hits[i]).score,
            (#[trigger] hits[j]).score,
        )
    &&& hits.len() < limit ==> forall|id: u64| #[trigger]
        points.contains_key(id) ==> exists|i: int|
            0 <= i < hits.len() && (#[trigger] hits[i]).id == Some(PointId::Num(id))
}

/// The replies that the vector index can give to a request. Any request can
/// fail; it succeeds only where this says so.
pub open spec fn index_admits(index: Index, request: IndexRequestView, reply: IndexReplyView) -> bool {
    reply is Failed || match request {
        IndexRequestView::Connect { url } => reply is Done,
        IndexRequestView::ListCollections => {
            &&& reply matches IndexReplyView::Collections(names)
            &&& names.no_duplicates()
            &&& names.to_set() == index.dom()
        },
        IndexRequestView::CreateCollection { name, dim, distance } => {
            &&& reply is Done
            &&& !index.contains_key(name)
            &&& dim > 0
            &&& distance != Distance::UnknownDistance
        },
        IndexRequestView::DeleteCollection { name } => reply is Done && index.contains_key(name),
        IndexRequestView::UpsertPoints { collection, points } => {
            &&& reply is Done
            &&& index.contains_key(collection)
            &&& all_of_dim(points, index[collection].dim)
        },
        IndexRequestView::GetPoints { collection, ids } => {
            &&& index.contains_key(collection)
            &&& reply == IndexReplyView::Points(retrieved(index[collection].points, ids))
        },
        IndexRequestView::SearchPoints { collection, vector, limit } => {
            &&& index.contains_key(collection)
            &&& vector.len() == index[collection].dim
            &&& reply matches IndexReplyView::Hits(hits)
            &&& hits_admitted(
                index[collection].points,
                index[collection].distance,
                limit,
                hits,
            )
        },
        IndexRequestView::DeletePoints { collection, ids } => {
            reply is Done && index.contains_key(collection)
        },
    }
}

/// The collection `name` of `index` with other points.
pub open spec fn with_points(index: Index, name: Seq<char>, points: Points) -> Index {
    index.insert(
        name,
        Collection { dim: index[name].dim, distance: index[name].distance, points },
    )
}

/// The vector index after a request that got this reply. A request that
/// failed changed nothing.
pub open spec fn index_after(index: Index, request: IndexRequestView, reply: IndexReplyView) -> Index {
    if reply is Failed {
        index
    } else {
        match request {
            IndexRequestView::CreateCollection { name, dim, distance } => index.insert(
                name,
                fresh(dim, distance),
            ),
            IndexRequestView::DeleteCollection { name } => index.remove(name),
            IndexRequestView::UpsertPoints { collection, points } => with_points(
                index,
                collection,
                upserted(index[collection].points, points),
            ),
            IndexRequestView::DeletePoints { collection, ids } => with_points(
                index,
                collection,
                index[collection].points.remove_keys(ids.to_set()),
            ),
            _ => index,
        }
    }
}

/// The replies that the relational store can give to a request.
pub open spec fn db_admits(
    tables: Map<Seq<char>, Table>,
    request: DbRequestView,
    reply: DbReplyView,
) -> bool {
    match request {
        DbRequestView::Connect { url } => reply is Connected || reply is Unreachable,
        DbRequestView::Insert { table, story } => reply is Failed || {
            &&& reply matches DbReplyView::Inserted(id)
            &&& tables.contains_key(table)
            &&& !tables[table].contains_key(id)
        },
        DbRequestView::Update { table, id, story } => reply is Failed || {
            &&& tables.contains_key(table)
            &&& reply == DbReplyView::Affected(
                if tables[table].contains_key(id) {
                    1
                } else {
                    0
                },
            )
        },
        DbRequestView::Select { table, id } => reply is Failed || {
            &&& tables.contains_key(table)
            &&& if tables[table].contains_key(id) {
                reply == DbReplyView::Fetched(RowView { id, story: tables[table][id] })
            } else {
                reply is NoRow
            }
        },
        DbRequestView::Delete { table, id } => reply is Failed || {
            &&& tables.contains_key(table)
            &&& reply == DbReplyView::Affected(
                if tables[table].contains_key(id) {
                    1
                } else {
                    0
                },
            )
        },
    }
}

/// The relational store after a request that got this reply.
pub open spec fn db_after(
    tables: Map<Seq<char>, Table>,
    request: DbRequestView,
    reply: DbReplyView,
) -> Map<Seq<char>, Table> {
    match (request, reply) {
        (DbRequestView::Insert { table, story }, DbReplyView::Inserted(id)) => tables.insert(
            table,
            tables[table].insert(id, story),
        ),
        (DbRequestView::Update { table, id, story }, DbReplyView::Affected(count)) => if count
            > 0 {
            tables.insert(table, tables[table].insert(id, story))
        } else {
            tables
        },
        (DbRequestView::Delete { table, id }, DbReplyView::Affected(count)) => if count > 0 {
            tables.insert(table, tables[table].remove(id))
        } else {
            tables
        },
        _ => tables,
    }
}

/// The replies that the embedding service can give to a request: a failure,
/// or one vector of the service's dimension per text.
pub open spec fn embed_admits(dim: nat, request: EmbedRequestView, reply: EmbedReplyView) -> bool {
    reply is Failed || {
        &&& reply matches EmbedReplyView::Data(vectors)
        &&& vectors.len() == request.input.len()
        &&& forall|i: int| 0 <= i < vectors.len() ==> (#[trigger] vectors[i]).len() == dim
    }
}

impl World {
    /// True when `reply` is a reply that the service asked can give to
    /// `request` in this world.
    pub open spec fn admits(self, request: RequestView, reply: ReplyView) -> bool {
        match (request, reply) {
            (RequestView::Index(request), ReplyView::Index(reply)) => index_admits(
                self.index,
                request,
                reply,
            ),
            (RequestView::Db(request), ReplyView::Db(reply)) => db_admits(
                self.tables,
                request,
                reply,
            ),
            (RequestView::Embed(request), ReplyView::Embed(reply)) => embed_admits(
                self.embedding_dim,
                request,
                reply,
            ),
            _ => false,
        }
    }

    /// The world after `request` got `reply`.
    pub open spec fn after(self, request: RequestView, reply: ReplyView) -> World {
        match (request, reply) {
            (RequestView::Index(request), ReplyView::Index(reply)) => World {
                index: index_after(self.index, request, reply),
                ..self
            },
            (RequestView::Db(request), ReplyView::Db(reply)) => World {
                tables: db_after(self.tables, request, reply),
                ..self
            },
            _ => self,
        }
    }
}

/// How a complete run of an operation ended: the world it left and the
/// result it returned.
pub struct Ending<T, E> {
    pub world: World,
    pub result: core::result::Result<T, E>,
}

/// Runs an operation from `step` in `world`, answering its requests with
/// `replies` in turn. The run is complete, and its ending returned, when each
/// reply is one that the world admits for the request it answers and the
/// operation is done exactly when the replies are used up.
pub open spec fn run<O: Operation>(
    step: StepView<O::V, <O::Output as DeepView>::V, <O::Error as View>::V>,
    world: World,
    replies: Seq<ReplyView>,
) -> Option<Ending<<O::Output as DeepView>::V, <O::Error as View>::V>>
    decreases replies.len(),
{
    match step {
        StepView::Done(result) => if replies.len() == 0 {
            Some(Ending { world, result })
        } else {
            None
        },
        StepView::Call(state, request) => if replies.len() > 0 && world.admits(
            request,
            replies[0],
        ) {
            run::<O>(
                O::next(state, replies[0]),
                world.after(request, replies[0]),
                replies.drop_first(),
            )
        } else {
            None
        },
    }
}

/// The world that an operation has made when `replies` have been handed to
/// it in turn, whether or not it is done by then: the world of an operation
/// that is still under way, or that was abandoned at that point. There is
/// one when each reply is one that the world admits for the request it
/// answers.
pub open spec fn reached<O: Operation>(
    step: StepView<O::V, <O::Output as DeepView>::V, <O::Error as View>::V>,
    world: World,
    replies: Seq<ReplyView>,
) -> Option<World>
    decreases replies.len(),
{
    if replies.len() == 0 {
        Some(world)
    } else {
        match step {
            StepView::Done(result) => None,
            StepView::Call(state, request) => if world.admits(request, replies[0]) {
                reached::<O>(
                    O::next(state, replies[0]),
                    world.after(request, replies[0]),
                    replies.drop_first(),
                )
            } else {
                None
            },
        }
    }
}

} // verus!
