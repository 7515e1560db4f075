//! The operations on collections: listing them, creating one unless it
//! exists, deleting one, and resetting one by deleting and creating it.

use crate::config::{QdrantCollection, QdrantCollectionView};
use crate::model::op::{
    prefixed, unexpected_reply, unexpected_reply_text, Operation, Reply, ReplyView, Request,
    RequestView, Step, StepView,
};
use crate::model::store::error::{Error, ErrorView};
use crate::model::store::vec_store::VecStore;
use crate::model::store::vec_wire::{
    Distance, IndexReply, IndexReplyView, IndexRequest, IndexRequestView,
};
use vstd::prelude::*;

verus! {

/// Waiting for the names of the collections.
#[derive(Debug, Clone, Copy, PartialEq, Eq, Structural)]
pub struct ListCollections;

impl View for ListCollections {
    type V = ListCollections;

    open spec fn view(&self) -> ListCollections {
        *self
    }
}

impl Operation for ListCollections {
    type Output = Vec<String>;

    type Error = Error;

    /// The names as the index listed them; a failed call is a fetch error with
    /// the client's text, any other reply a fetch error too.
    open spec fn next(state: ListCollections, reply: ReplyView) -> StepView<
        ListCollections,
        Seq<Seq<char>>,
        ErrorView,
    > {
        match reply {
            ReplyView::Index(IndexReplyView::Collections(names)) => StepView::Done(Ok(names)),
            ReplyView::Index(IndexReplyView::Failed(text)) => StepView::Done(
                Err(ErrorView::QdrantFetchError(text)),
            ),
            _ => StepView::Done(Err(ErrorView::QdrantFetchError(unexpected_reply()))),
        }
    }

    fn resume(self, reply: Reply) -> (step: Step<Self, Vec<String>, Error>) {
        match reply {
            Reply::Index(IndexReply::Collections(names)) => Step::Done(Ok(names)),
            Reply::Index(IndexReply::Failed(text)) => Step::Done(Err(Error::QdrantFetchError(text))),
            _ => Step::Done(Err(Error::QdrantFetchError(unexpected_reply_text()))),
        }
    }
}

/// Waiting for the index to drop a collection.
#[derive(Debug, Clone)]
pub struct DeleteCollection {
    pub name: String,
}

/// `DeleteCollection` as plain mathematical values.
pub struct DeleteCollectionView {
    pub name: Seq<char>,
}

impl View for DeleteCollection {
    type V = DeleteCollectionView;

    open spec fn view(&self) -> DeleteCollectionView {
        DeleteCollectionView { name: self.name@ }
    }
}

/// The text of the error for a collection that could not be deleted.
pub open spec fn delete_collection_failure(name: Seq<char>) -> Seq<char> {
    "Failed to delete collection: "@ + name
}

impl Operation for DeleteCollection {
    type Output = ();

    type Error = Error;

    /// Success when the index acknowledges; every other reply is a delete
    /// error that names the collection.
    open spec fn next(state: DeleteCollectionView, reply: ReplyView) -> StepView<
        DeleteCollectionView,
        (),
        ErrorView,
    > {
        match reply {
            ReplyView::Index(IndexReplyView::Done) => StepView::Done(Ok(())),
            _ => StepView::Done(
                Err(ErrorView::QdrantDeleteError(delete_collection_failure(state.name))),
            ),
        }
    }

    fn resume(self, reply: Reply) -> (step: Step<Self, (), Error>) {
        match reply {
            Reply::Index(IndexReply::Done) => Step::Done(Ok(())),
            _ => Step::Done(
                Err(
                    Error::QdrantDeleteError(
                        prefixed("Failed to delete collection: ", self.name.as_str()),
                    ),
                ),
            ),
        }
    }
}

/// The metric that the client of the index knows under `name`.
pub open spec fn distance_named(name: Seq<char>) -> Option<Distance> {
    if name == "UnknownDistance"@ {
        Some(Distance::UnknownDistance)
    } else if name == "Cosine"@ {
        Some(Distance::Cosine)
    } else if name == "Euclid"@ {
        Some(Distance::Euclid)
    } else if name == "Dot"@ {
        Some(Distance::Dot)
    } else {
        None
    }
}

/// `qdrant_client::qdrant::Distance::from_str_name`, with the variant that it
/// returns written in this crate's `Distance`. The client maps the four names
/// "UnknownDistance", "Cosine", "Euclid" and "Dot", spelled exactly so, to the
/// variant of the same name, and every other text to `None`.
#[verifier::external_body]
fn distance_from_str_name(name: &str) -> (distance: Option<Distance>)
    ensures
        distance == distance_named(name@),
{
    match qdrant_client::qdrant::Distance::from_str_name(name) {
        Some(qdrant_client::qdrant::Distance::UnknownDistance) => Some(Distance::UnknownDistance),
        Some(qdrant_client::qdrant::Distance::Cosine) => Some(Distance::Cosine),
        Some(qdrant_client::qdrant::Distance::Euclid) => Some(Distance::Euclid),
        Some(qdrant_client::qdrant::Distance::Dot) => Some(Distance::Dot),
        None => None,
    }
}

/// Where the creation of a collection stands.
#[derive(Debug, Clone)]
pub enum CreateCollection {
    /// Waiting for the names of the collections that exist.
    Listing(QdrantCollection),
    /// Waiting for the index to acknowledge the creation.
    Creating,
}

/// `CreateCollection` as plain mathematical values.
pub enum CreateCollectionView {
    Listing(QdrantCollectionView),
    Creating,
}

impl View for CreateCollection {
    type V = CreateCollectionView;

    open spec fn view(&self) -> CreateCollectionView {
        match self {
            CreateCollection::Listing(clct) => CreateCollectionView::Listing(clct@),
            CreateCollection::Creating => CreateCollectionView::Creating,
        }
    }
}

/// The text of the error for a collection that could not be created.
pub open spec fn create_collection_failure(cause: Seq<char>) -> Seq<char> {
    "Failed to create collection: "@ + cause
}

/// What follows the listing when a collection is to be created: nothing if
/// the name is listed; else the creation request, or the refusal of a
/// metric name that the client does not know.
pub open spec fn after_listing(clct: QdrantCollectionView, names: Seq<Seq<char>>) -> StepView<
    CreateCollectionView,
    (),
    ErrorView,
> {
    if names.contains(clct.name) {
        StepView::Done(Ok(()))
    } else {
        match distance_named(clct.distance) {
            Some(distance) => StepView::Call(
                CreateCollectionView::Creating,
                RequestView::Index(
                    IndexRequestView::CreateCollection {
                        name: clct.name,
                        dim: clct.dim,
                        distance,
                    },
                ),
            ),
            None => StepView::Done(Err(ErrorView::InvalidDistanceName(clct.distance))),
        }
    }
}

/// True when `name` is one of `names`.
pub fn is_listed(names: &Vec<String>, name: &String) -> (listed: bool)
    ensures
        listed == names.deep_view().contains(name@),
{
    let mut i: usize = 0;
    while i < names.len()
        invariant
            i <= names.len(),
            forall|j: int| 0 <= j < i ==> names.deep_view()[j] != name@,
        decreases names.len() - i,
    {
        if names[i] == *name {
            assert(names.deep_view()[i as int] == name@);
            return true;
        }
        i += 1;
    }
    false
}

impl Operation for CreateCollection {
    type Output = ();

    type Error = Error;

    /// After the listing: see `after_listing`; a listing that failed is a
    /// fetch error. After the creation request: success when the index
    /// acknowledges, a create error otherwise.
    open spec fn next(state: CreateCollectionView, reply: ReplyView) -> StepView<
        CreateCollectionView,
        (),
        ErrorView,
    > {
        match state {
            CreateCollectionView::Listing(clct) => match reply {
                ReplyView::Index(IndexReplyView::Collections(names)) => after_listing(clct, names),
                ReplyView::Index(IndexReplyView::Failed(text)) => StepView::Done(
                    Err(ErrorView::QdrantFetchError(text)),
                ),
                _ => StepView::Done(Err(ErrorView::QdrantFetchError(unexpected_reply()))),
            },
            CreateCollectionView::Creating => match reply {
                ReplyView::Index(IndexReplyView::Done) => StepView::Done(Ok(())),
                ReplyView::Index(IndexReplyView::Failed(text)) => StepView::Done(
                    Err(ErrorView::QdrantCreateError(create_collection_failure(text))),
                ),
                _ => StepView::Done(
                    Err(ErrorView::QdrantCreateError(create_collection_failure(unexpected_reply()))),
                ),
            },
        }
    }

    fn resume(self, reply: Reply) -> (step: Step<Self, (), Error>) {
        match self {
            CreateCollection::Listing(clct) => match reply {
                Reply::Index(IndexReply::Collections(names)) => {
                    if is_listed(&names, &clct.name) {
                        Step::Done(Ok(()))
                    } else {
                        let step = match distance_from_str_name(clct.distance.as_str()) {
                            Some(distance) => Step::Call(
                                CreateCollection::Creating,
                                Request::Index(
                                    IndexRequest::CreateCollection {
                                        name: clct.name,
                                        dim: clct.dim,
                                        distance,
                                    },
                                ),
                            ),
                            None => Step::Done(Err(Error::InvalidDistanceName(clct.distance))),
                        };
                        assert(step@ == after_listing(clct@, names.deep_view()));
                        step
                    }
                },
                Reply::Index(IndexReply::Failed(text)) => Step::Done(
                    Err(Error::QdrantFetchError(text)),
                ),
                _ => Step::Done(Err(Error::QdrantFetchError(unexpected_reply_text()))),
            },
            CreateCollection::Creating => match reply {
                Reply::Index(IndexReply::Done) => Step::Done(Ok(())),
                Reply::Index(IndexReply::Failed(text)) => Step::Done(
                    Err(
                        Error::QdrantCreateError(
                            prefixed("Failed to create collection: ", text.as_str()),
                        ),
                    ),
                ),
                _ => Step::Done(
                    Err(
                        Error::QdrantCreateError(
                            prefixed(
                                "Failed to create collection: ",
                                unexpected_reply_text().as_str(),
                            ),
                        ),
                    ),
                ),
            },
        }
    }
}

/// Where the reset of a collection stands.
#[derive(Debug, Clone)]
pub enum ResetCollection {
    /// Waiting for the index to drop the collection.
    Deleting(QdrantCollection),
    /// The collection is gone and is being created again.
    Creating(CreateCollection),
}

/// `ResetCollection` as plain mathematical values.
pub enum ResetCollectionView {
    Deleting(QdrantCollectionView),
    Creating(CreateCollectionView),
}

impl View for ResetCollection {
    type V = ResetCollectionView;

    open spec fn view(&self) -> ResetCollectionView {
        match self {
            ResetCollection::Deleting(clct) => ResetCollectionView::Deleting(clct@),
            ResetCollection::Creating(pending) => ResetCollectionView::Creating(pending@),
        }
    }
}

/// A step of the creation, seen as a step of the reset it is part of.
pub open spec fn recreating(step: StepView<CreateCollectionView, (), ErrorView>) -> StepView<
    ResetCollectionView,
    (),
    ErrorView,
> {
    match step {
        StepView::Call(pending, request) => StepView::Call(
            ResetCollectionView::Creating(pending),
            request,
        ),
        StepView::Done(result) => StepView::Done(result),
    }
}

impl Operation for ResetCollection {
    type Output = ();

    type Error = Error;

    /// Once the index has dropped the collection the creation starts, and
    /// from there on the reset is the creation. A deletion that is not
    /// acknowledged ends the reset with a delete error: nothing is created.
    open spec fn next(state: ResetCollectionView, reply: ReplyView) -> StepView<
        ResetCollectionView,
        (),
        ErrorView,
    > {
        match state {
            ResetCollectionView::Deleting(clct) => match reply {
                ReplyView::Index(IndexReplyView::Done) => recreating(
                    VecStore::spec_create_collection(clct),
                ),
                _ => StepView::Done(
                    Err(ErrorView::QdrantDeleteError(delete_collection_failure(clct.name))),
                ),
            },
            ResetCollectionView::Creating(pending) => recreating(
                CreateCollection::next(pending, reply),
            ),
        }
    }

    fn resume(self, reply: Reply) -> (step: Step<Self, (), Error>) {
        let creation = match self {
            ResetCollection::Deleting(clct) => match reply {
                Reply::Index(IndexReply::Done) => VecStore::start_creation(clct),
                _ => {
                    return Step::Done(
                        Err(
                            Error::QdrantDeleteError(
                                prefixed("Failed to delete collection: ", clct.name.as_str()),
                            ),
                        ),
                    );
                },
            },
            ResetCollection::Creating(pending) => pending.resume(reply),
        };
        match creation {
            Step::Call(pending, request) => Step::Call(ResetCollection::Creating(pending), request),
            Step::Done(result) => Step::Done(result),
        }
    }
}

} // verus!
