//! The vector store manager: the lifecycle of collections, and the writing,
//! reading, searching and deleting of points.
//!
//! Each method of `VecStore` starts one operation. The operation names the
//! requests to send to the index and, from the replies, works out the result.

use crate::config::{Qdrant, QdrantCollection, QdrantCollectionView, QdrantView};
use crate::model::op::{Request, RequestView, Step, StepView};
use crate::model::store::bootstrap::{Bootstrap, BootstrapPhase, BootstrapPhaseView, BootstrapView};
use crate::model::store::collections::{
    CreateCollection, CreateCollectionView, DeleteCollection, DeleteCollectionView,
    ListCollections, ResetCollection, ResetCollectionView,
};
use crate::model::store::error::{Error, ErrorView, UpdateFailure, UpdateFailureView};
use crate::model::store::points::{
    first_mismatch, items_view, points_of, DeletePoints, GetPointEmbeddings, SearchPoints,
    UpdatePoints,
};
use crate::model::store::vec_wire::{Embedding, IndexRequest, IndexRequestView, PointStruct};
use vstd::prelude::*;
use vstd::string::StringExecFns;

verus! {

/// Marks whether a point carries a score. A hit of a search does; a point
/// that is written or looked up does not.
pub trait ScoreState {
}

/// The point carries no score.
#[derive(Debug, Clone, Copy, PartialEq, Eq, Structural)]
pub struct NoScore;

/// The point carries this score, as the bits of a 32-bit IEEE 754 number.
#[derive(Debug, Clone, Copy, PartialEq, Eq, Structural)]
pub struct WithScore(pub u32);

impl ScoreState for NoScore {
}

impl ScoreState for WithScore {
}

/// Marks whether a point carries its vector. A point that is written or
/// looked up does; a hit of a search does not.
pub trait EmbeddingState {
}

/// The point carries no vector.
#[derive(Debug, Clone, Copy, PartialEq, Eq, Structural)]
pub struct NoEmbedding;

/// The point carries this vector.
#[derive(Debug, Clone, PartialEq, Eq)]
pub struct WithEmbedding(pub Embedding);

impl EmbeddingState for NoEmbedding {
}

impl EmbeddingState for WithEmbedding {
}

/// The manager of the vector index. It knows the collections that the
/// configuration declares.
#[derive(Debug, Clone)]
pub struct VecStore {
    pub collections: Vec<QdrantCollection>,
}

/// `VecStore` as plain mathematical values.
pub struct VecStoreView {
    pub collections: Seq<QdrantCollectionView>,
}

impl View for VecStore {
    type V = VecStoreView;

    open spec fn view(&self) -> VecStoreView {
        VecStoreView { collections: self.collections.deep_view() }
    }
}

impl DeepView for VecStore {
    type V = VecStoreView;

    open spec fn deep_view(&self) -> VecStoreView {
        self@
    }
}

impl VecStore {
    /// A manager that knows the same collections.
    pub fn duplicate(&self) -> (copy: Self)
        ensures
            copy@ == self@,
    {
        let mut collections: Vec<QdrantCollection> = Vec::new();
        let mut i: usize = 0;
        while i < self.collections.len()
            invariant
                i <= self.collections.len(),
                collections@.len() == i,
                forall|j: int| 0 <= j < i ==> (#[trigger] collections@[j])@ == self.collections@[j]@,
            decreases self.collections.len() - i,
        {
            collections.push(self.collections[i].duplicate());
            i += 1;
        }
        let copy = VecStore { collections };
        assert(copy@.collections =~= self@.collections);
        copy
    }
}

impl VecStoreView {
    /// The first declared collection called `name`, if one is.
    pub open spec fn declared(self, name: Seq<char>) -> Option<QdrantCollectionView> {
        match self.collections.map_values(|c: QdrantCollectionView| c.name).index_of_first(name) {
            Some(i) => Some(self.collections[i]),
            None => None,
        }
    }
}

impl VecStore {
    /// The dimension of the first declared collection called `name`.
    pub fn declared_dim(&self, name: &str) -> (dim: Option<u64>)
        ensures
            dim == match self@.declared(name@) {
                Some(c) => Some(c.dim),
                None => None,
            },
    {
        let wanted = String::from_str(name);
        let ghost names = self@.collections.map_values(|c: QdrantCollectionView| c.name);
        let mut i: usize = 0;
        while i < self.collections.len()
            invariant
                i <= self.collections.len(),
                wanted@ == name@,
                names == self@.collections.map_values(|c: QdrantCollectionView| c.name),
                forall|j: int| 0 <= j < i ==> names[j] != name@,
            decreases self.collections.len() - i,
        {
            if self.collections[i].name == wanted {
                proof {
                    names.index_of_first_ensures(name@);
                    assert(names[i as int] == name@);
                }
                return Some(self.collections[i].dim);
            }
            i += 1;
        }
        proof {
            names.index_of_first_ensures(name@);
        }
        None
    }

    /// Writes one point per item into the collection `name`: the point's id is
    /// the item's id, its vector the item's vector, its payload empty.
    ///
    /// Where `name` is a declared collection, every vector must have its
    /// dimension: the first one that has not stops the operation with a
    /// dimension mismatch before anything is sent.
    pub fn update_points(&self, name: &str, id_and_embs: Vec<(i64, Embedding)>) -> (step: Step<
        UpdatePoints,
        (),
        Error,
    >)
        ensures
            step@ == Self::spec_update_points(self@, name@, items_view(id_and_embs@)),
    {
        let ghost items = items_view(id_and_embs@);
        match self.declared_dim(name) {
            Some(dim) => {
                let ghost fits = items.map_values(|item: (i64, Seq<u32>)| item.1.len() == dim);
                let mut i: usize = 0;
                while i < id_and_embs.len()
                    invariant
                        i <= id_and_embs.len(),
                        items == items_view(id_and_embs@),
                        fits == items.map_values(|item: (i64, Seq<u32>)| item.1.len() == dim),
                        self@.declared(name@) matches Some(c) && c.dim == dim,
                        forall|j: int| 0 <= j < i ==> fits[j],
                    decreases id_and_embs.len() - i,
                {
                    let found = id_and_embs[i].1.len() as u64;
                    if found != dim {
                        proof {
                            fits.index_of_first_ensures(false);
                            assert(!fits[i as int]);
                        }
                        return Step::Done(
                            Err(
                                Error::QdrantUpdateError(
                                    UpdateFailure::DimensionMismatch {
                                        id: id_and_embs[i].0,
                                        expected: dim,
                                        found,
                                    },
                                ),
                            ),
                        );
                    }
                    i += 1;
                }
                proof {
                    fits.index_of_first_ensures(false);
                }
            },
            None => {},
        }
        let mut points: Vec<PointStruct> = Vec::new();
        for item in it: id_and_embs.into_iter()
            invariant
                it.seq() == id_and_embs@,
                points@.len() == it.index(),
                forall|j: int|
                    0 <= j < it.index() ==> (#[trigger] points@[j])@ == points_of(
                        items_view(id_and_embs@),
                    )[j],
        {
            points.push(PointStruct { id: #[verifier::truncate] (item.0 as u64), vector: item.1 });
        }
        let request = IndexRequest::UpsertPoints { collection: String::from_str(name), points };
        proof {
            assert(points.deep_view() =~= points_of(items));
        }
        Step::Call(UpdatePoints, Request::Index(request))
    }

    /// `update_points` as a function of the declared collections, the name and
    /// the items.
    pub open spec fn spec_update_points(
        store: VecStoreView,
        name: Seq<char>,
        items: Seq<(i64, Seq<u32>)>,
    ) -> StepView<UpdatePoints, (), ErrorView> {
        match store.declared(name) {
            Some(c) => match first_mismatch(items, c.dim) {
                Some(k) => StepView::Done(
                    Err(
                        ErrorView::QdrantUpdateError(
                            UpdateFailureView::DimensionMismatch {
                                id: items[k].0,
                                expected: c.dim,
                                found: items[k].1.len() as u64,
                            },
                        ),
                    ),
                ),
                None => Self::spec_upsert(name, items),
            },
            None => Self::spec_upsert(name, items),
        }
    }

    /// The write itself: one request that carries the points of `items`.
    pub open spec fn spec_upsert(name: Seq<char>, items: Seq<(i64, Seq<u32>)>) -> StepView<
        UpdatePoints,
        (),
        ErrorView,
    > {
        StepView::Call(
            UpdatePoints,
            RequestView::Index(
                IndexRequestView::UpsertPoints { collection: name, points: points_of(items) },
            ),
        )
    }

    /// Looks the points `ids` of the collection `name` up and returns their
    /// vectors. Ids that the index does not hold contribute nothing.
    pub fn get_point_embeddings(&self, name: &str, ids: Vec<u64>) -> (step: Step<
        GetPointEmbeddings,
        Vec<Embedding>,
        Error,
    >)
        ensures
            step@ == Self::spec_get_point_embeddings(name@, ids@),
    {
        Step::Call(
            GetPointEmbeddings,
            Request::Index(IndexRequest::GetPoints { collection: String::from_str(name), ids }),
        )
    }

    /// What `get_point_embeddings` returns, as a mathematical function of its arguments.
    pub open spec fn spec_get_point_embeddings(name: Seq<char>, ids: Seq<u64>) -> StepView<
        GetPointEmbeddings,
        Seq<Seq<u32>>,
        ErrorView,
    > {
        StepView::Call(
            GetPointEmbeddings,
            RequestView::Index(IndexRequestView::GetPoints { collection: name, ids }),
        )
    }

    /// Asks the index for the `limit` points of the collection `name` that
    /// are nearest to `embedding`, nearest first.
    pub fn seach_points(&self, name: &str, embedding: Embedding, limit: u64) -> (step: Step<
        SearchPoints,
        Vec<(i64, u32)>,
        Error,
    >)
        ensures
            step@ == Self::spec_seach_points(name@, embedding@, limit),
    {
        Step::Call(
            SearchPoints,
            Request::Index(
                IndexRequest::SearchPoints {
                    collection: String::from_str(name),
                    vector: embedding,
                    limit,
                },
            ),
        )
    }

    /// What `seach_points` returns, as a mathematical function of its arguments.
    pub open spec fn spec_seach_points(name: Seq<char>, embedding: Seq<u32>, limit: u64) -> StepView<
        SearchPoints,
        Seq<(i64, u32)>,
        ErrorView,
    > {
        StepView::Call(
            SearchPoints,
            RequestView::Index(
                IndexRequestView::SearchPoints { collection: name, vector: embedding, limit },
            ),
        )
    }

    /// Brings the manager up for the configured index: makes the connection
    /// handle, makes sure that every declared collection exists, and resets
    /// the first of them. The operation ends with the manager.
    pub fn from_config(config: &Qdrant) -> (step: Step<Bootstrap, VecStore, Error>)
        requires
            config@.collections.len() > 0,
        ensures
            step@ == Self::spec_from_config(config@),
    {
        let first = config.collections[0].duplicate();
        let mut rest: Vec<QdrantCollection> = Vec::new();
        let mut i: usize = 1;
        while i < config.collections.len()
            invariant
                1 <= i <= config.collections.len(),
                rest@.len() == i - 1,
                forall|j: int| 0 <= j < i - 1 ==> (#[trigger] rest@[j])@ == config@.collections[j + 1],
            decreases config.collections.len() - i,
        {
            rest.push(config.collections[i].duplicate());
            i += 1;
        }
        assert(rest.deep_view() =~= config@.collections.drop_first());
        Step::Call(
            Bootstrap { first, rest, phase: BootstrapPhase::Connecting },
            Request::Index(IndexRequest::Connect { url: config.url.clone() }),
        )
    }

    /// What `from_config` returns, as a mathematical function of its arguments.
    pub open spec fn spec_from_config(config: QdrantView) -> StepView<
        BootstrapView,
        VecStoreView,
        ErrorView,
    > {
        StepView::Call(
            BootstrapView {
                first: config.collections.first(),
                rest: config.collections.drop_first(),
                phase: BootstrapPhaseView::Connecting,
            },
            RequestView::Index(IndexRequestView::Connect { url: config.url }),
        )
    }

    /// Makes sure that the collection `clct` exists: nothing is changed if
    /// its name is taken, else it is created with its dimension and metric.
    pub fn create_collection(&self, clct: &QdrantCollection) -> (step: Step<
        CreateCollection,
        (),
        Error,
    >)
        ensures
            step@ == Self::spec_create_collection(clct@),
    {
        Self::start_creation(clct.duplicate())
    }

    /// The first step of a creation: the listing.
    pub fn start_creation(clct: QdrantCollection) -> (step: Step<CreateCollection, (), Error>)
        ensures
            step@ == Self::spec_create_collection(clct@),
    {
        Step::Call(
            CreateCollection::Listing(clct),
            Request::Index(IndexRequest::ListCollections),
        )
    }

    /// What `create_collection` returns, as a mathematical function of its arguments.
    pub open spec fn spec_create_collection(clct: QdrantCollectionView) -> StepView<
        CreateCollectionView,
        (),
        ErrorView,
    > {
        StepView::Call(
            CreateCollectionView::Listing(clct),
            RequestView::Index(IndexRequestView::ListCollections),
        )
    }

    /// Empties the collection `clct`: drops it, then creates it again. The
    /// two steps are separate requests; between them the collection does not
    /// exist.
    pub fn reset_collection(&self, clct: &QdrantCollection) -> (step: Step<
        ResetCollection,
        (),
        Error,
    >)
        ensures
            step@ == Self::spec_reset_collection(clct@),
    {
        Self::start_reset(clct.duplicate())
    }

    /// The first step of a reset: the deletion.
    pub fn start_reset(clct: QdrantCollection) -> (step: Step<ResetCollection, (), Error>)
        ensures
            step@ == Self::spec_reset_collection(clct@),
    {
        let name = clct.name.clone();
        Step::Call(
            ResetCollection::Deleting(clct),
            Request::Index(IndexRequest::DeleteCollection { name }),
        )
    }

    /// What `reset_collection` returns, as a mathematical function of its arguments.
    pub open spec fn spec_reset_collection(clct: QdrantCollectionView) -> StepView<
        ResetCollectionView,
        (),
        ErrorView,
    > {
        StepView::Call(
            ResetCollectionView::Deleting(clct),
            RequestView::Index(IndexRequestView::DeleteCollection { name: clct.name }),
        )
    }

    /// Asks the index for the names of its collections.
    pub fn list_collections(&self) -> (step: Step<ListCollections, Vec<String>, Error>)
        ensures
            step@ == Self::spec_list_collections(),
    {
        Step::Call(ListCollections, Request::Index(IndexRequest::ListCollections))
    }

    /// What `list_collections` returns, as a mathematical function of its arguments.
    pub open spec fn spec_list_collections() -> StepView<ListCollections, Seq<Seq<char>>, ErrorView> {
        StepView::Call(ListCollections, RequestView::Index(IndexRequestView::ListCollections))
    }

    /// Asks the index to drop the collection `name`.
    pub fn delete_collection(&self, name: &str) -> (step: Step<DeleteCollection, (), Error>)
        ensures
            step@ == Self::spec_delete_collection(name@),
    {
        Step::Call(
            DeleteCollection { name: String::from_str(name) },
            Request::Index(IndexRequest::DeleteCollection { name: String::from_str(name) }),
        )
    }

    /// What `delete_collection` returns, as a mathematical function of its arguments.
    pub open spec fn spec_delete_collection(name: Seq<char>) -> StepView<
        DeleteCollectionView,
        (),
        ErrorView,
    > {
        StepView::Call(
            DeleteCollectionView { name },
            RequestView::Index(IndexRequestView::DeleteCollection { name }),
        )
    }

    /// Asks the index to drop the points `ids` of the collection `name`.
    pub fn delete_points(&self, name: &str, ids: Vec<u64>) -> (step: Step<DeletePoints, (), Error>)
        ensures
            step@ == Self::spec_delete_points(name@, ids@),
    {
        Self::start_deletion(name, ids)
    }

    /// The first and only step of a deletion of points.
    pub fn start_deletion(name: &str, ids: Vec<u64>) -> (step: Step<DeletePoints, (), Error>)
        ensures
            step@ == Self::spec_delete_points(name@, ids@),
    {
        Step::Call(
            DeletePoints,
            Request::Index(IndexRequest::DeletePoints { collection: String::from_str(name), ids }),
        )
    }

    /// What `delete_points` returns, as a mathematical function of its arguments.
    pub open spec fn spec_delete_points(name: Seq<char>, ids: Seq<u64>) -> StepView<
        DeletePoints,
        (),
        ErrorView,
    > {
        StepView::Call(
            DeletePoints,
            RequestView::Index(IndexRequestView::DeletePoints { collection: name, ids }),
        )
    }
}

} // verus!
