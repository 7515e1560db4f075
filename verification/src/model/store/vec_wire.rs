//! What travels between the core and the vector index: the requests the core
//! asks to have performed, and the replies it is handed back.
//!
//! A vector component is carried as the bit pattern of a 32-bit IEEE 754
//! number, and so is a score: the core never computes with them, it only
//! counts, copies and compares them for equality.

use vstd::prelude::*;

verus! {

/// A vector, one `u32` of bits per component.
pub type Embedding = Vec<u32>;

/// The view of a vector, taken component by component, is the vector's view.
pub proof fn lemma_embedding_deep_view(vector: Embedding)
    ensures
        vector.deep_view() == vector@,
{
    assert(vector.deep_view() =~= vector@);
}

/// The metrics by which the index compares vectors.
#[derive(Debug, Clone, Copy, PartialEq, Eq, Structural)]
pub enum Distance {
    UnknownDistance,
    Cosine,
    Euclid,
    Dot,
}

/// Where a score stands among all scores: the greater the number that the
/// bits encode, the greater the rank. Both zeros have rank 0.
pub open spec fn score_rank(bits: u32) -> int {
    if bits < 0x8000_0000 {
        bits as int
    } else {
        0x8000_0000 - bits
    }
}

/// True when, under the metric `distance`, a point with score `a` is at
/// least as near to the query as one with score `b`. Under `Euclid` the
/// score is a distance and the smaller one is nearer; under the other
/// metrics it is a similarity and the greater one is nearer.
pub open spec fn at_least_as_near(distance: Distance, a: u32, b: u32) -> bool {
    match distance {
        Distance::Euclid => score_rank(a) <= score_rank(b),
        _ => score_rank(a) >= score_rank(b),
    }
}

/// A point as it is written to the index: its id and its vector. The payload
/// is always empty.
#[derive(Debug, Clone, PartialEq, Eq)]
pub struct PointStruct {
    pub id: u64,
    pub vector: Embedding,
}

/// The id of a point that the index returned.
#[derive(Debug, Clone, Copy, PartialEq, Eq, Structural)]
pub enum PointId {
    /// A number: the only kind this core writes.
    Num(u64),
    /// A UUID, written by someone else.
    Uuid,
}

/// The vectors of a point that the index returned.
#[derive(Debug, Clone, PartialEq, Eq)]
pub enum Vectors {
    /// One unnamed vector: the only kind this core writes.
    Dense(Embedding),
    /// A set of named vectors.
    Named,
}

/// A point returned by a lookup.
#[derive(Debug, Clone, PartialEq, Eq)]
pub struct RetrievedPoint {
    pub id: Option<PointId>,
    pub vectors: Option<Vectors>,
}

/// A point returned by a search, with its similarity to the query.
#[derive(Debug, Clone, Copy, PartialEq, Eq, Structural)]
pub struct ScoredPoint {
    pub id: Option<PointId>,
    pub score: u32,
}

/// What the core asks of the vector index.
#[derive(Debug, Clone, PartialEq, Eq)]
pub enum IndexRequest {
    /// Open the connection handle for the service at `url`.
    Connect { url: String },
    ListCollections,
    CreateCollection { name: String, dim: u64, distance: Distance },
    DeleteCollection { name: String },
    /// Write the points and wait until the index has applied them.
    UpsertPoints { collection: String, points: Vec<PointStruct> },
    /// Look the ids up; vectors are wanted, payloads are not.
    GetPoints { collection: String, ids: Vec<u64> },
    /// The `limit` points nearest to `vector`, without payloads.
    SearchPoints { collection: String, vector: Embedding, limit: u64 },
    DeletePoints { collection: String, ids: Vec<u64> },
}

/// What the vector index answered.
#[derive(Debug, Clone, PartialEq, Eq)]
pub enum IndexReply {
    /// The call did not succeed; the text is the client's account of it.
    Failed(String),
    /// The request was carried out and there is nothing to return.
    Done,
    Collections(Vec<String>),
    Points(Vec<RetrievedPoint>),
    Hits(Vec<ScoredPoint>),
}

/// `PointStruct` as plain mathematical values.
pub struct PointStructView {
    pub id: u64,
    pub vector: Seq<u32>,
}

/// `Vectors` as plain mathematical values.
pub enum VectorsView {
    Dense(Seq<u32>),
    Named,
}

/// `RetrievedPoint` as plain mathematical values.
pub struct RetrievedPointView {
    pub id: Option<PointId>,
    pub vectors: Option<VectorsView>,
}

/// `IndexRequest` as plain mathematical values.
pub enum IndexRequestView {
    Connect { url: Seq<char> },
    ListCollections,
    CreateCollection { name: Seq<char>, dim: u64, distance: Distance },
    DeleteCollection { name: Seq<char> },
    UpsertPoints { collection: Seq<char>, points: Seq<PointStructView> },
    GetPoints { collection: Seq<char>, ids: Seq<u64> },
    SearchPoints { collection: Seq<char>, vector: Seq<u32>, limit: u64 },
    DeletePoints { collection: Seq<char>, ids: Seq<u64> },
}

/// `IndexReply` as plain mathematical values.
pub enum IndexReplyView {
    Failed(Seq<char>),
    Done,
    Collections(Seq<Seq<char>>),
    Points(Seq<RetrievedPointView>),
    Hits(Seq<ScoredPoint>),
}

impl View for PointStruct {
    type V = PointStructView;

    open spec fn view(&self) -> PointStructView {
        PointStructView { id: self.id, vector: self.vector@ }
    }
}

impl DeepView for PointStruct {
    type V = PointStructView;

    open spec fn deep_view(&self) -> PointStructView {
        self@
    }
}

impl View for Vectors {
    type V = VectorsView;

    open spec fn view(&self) -> VectorsView {
        match self {
            Vectors::Dense(vector) => VectorsView::Dense(vector@),
            Vectors::Named => VectorsView::Named,
        }
    }
}

impl View for RetrievedPoint {
    type V = RetrievedPointView;

    open spec fn view(&self) -> RetrievedPointView {
        RetrievedPointView {
            id: self.id,
            vectors: match self.vectors {
                Some(vectors) => Some(vectors@),
                None => None,
            },
        }
    }
}

impl DeepView for RetrievedPoint {
    type V = RetrievedPointView;

    open spec fn deep_view(&self) -> RetrievedPointView {
        self@
    }
}

impl View for IndexRequest {
    type V = IndexRequestView;

    open spec fn view(&self) -> IndexRequestView {
        match self {
            IndexRequest::Connect { url } => IndexRequestView::Connect { url: url@ },
            IndexRequest::ListCollections => IndexRequestView::ListCollections,
            IndexRequest::CreateCollection { name, dim, distance } => {
                IndexRequestView::CreateCollection { name: name@, dim: *dim, distance: *distance }
            },
            IndexRequest::DeleteCollection { name } => {
                IndexRequestView::DeleteCollection { name: name@ }
            },
            IndexRequest::UpsertPoints { collection, points } => IndexRequestView::UpsertPoints {
                collection: collection@,
                points: points.deep_view(),
            },
            IndexRequest::GetPoints { collection, ids } => {
                IndexRequestView::GetPoints { collection: collection@, ids: ids@ }
            },
            IndexRequest::SearchPoints { collection, vector, limit } => {
                IndexRequestView::SearchPoints {
                    collection: collection@,
                    vector: vector@,
                    limit: *limit,
                }
            },
            IndexRequest::DeletePoints { collection, ids } => {
                IndexRequestView::DeletePoints { collection: collection@, ids: ids@ }
            },
        }
    }
}

impl View for IndexReply {
    type V = IndexReplyView;

    open spec fn view(&self) -> IndexReplyView {
        match self {
            IndexReply::Failed(text) => IndexReplyView::Failed(text@),
            IndexReply::Done => IndexReplyView::Done,
            IndexReply::Collections(names) => IndexReplyView::Collections(names.deep_view()),
            IndexReply::Points(points) => IndexReplyView::Points(points.deep_view()),
            IndexReply::Hits(hits) => IndexReplyView::Hits(hits@),
        }
    }
}

} // verus!
