//! Bringing the vector store manager up: the connection, the declared
//! collections, and the reset of the first of them.

use crate::config::{QdrantCollection, QdrantCollectionView};
use crate::model::op::{
    prefixed, unexpected_reply, unexpected_reply_text, Operation, Reply, ReplyView, Request,
    RequestView, Step, StepView,
};
use crate::model::store::collections::{
    CreateCollection, CreateCollectionView, ResetCollection, ResetCollectionView,
};
use crate::model::store::error::{Error, ErrorView};
use crate::model::store::vec_store::{VecStore, VecStoreView};
use crate::model::store::vec_wire::{IndexReply, IndexReplyView, IndexRequest, IndexRequestView};
use vstd::prelude::*;

verus! {

/// What the bootstrap of the manager is doing.
#[derive(Debug, Clone)]
pub enum BootstrapPhase {
    /// Waiting for the connection handle.
    Connecting,
    /// Making sure that a declared collection exists. `upcoming` counts the
    /// collections after the first that have been taken up so far.
    Ensuring { upcoming: usize, pending: CreateCollection },
    /// Every declared collection exists; the first one is being reset.
    Resetting(ResetCollection),
}

/// Where the bootstrap of the manager stands.
#[derive(Debug, Clone)]
pub struct Bootstrap {
    /// The first declared collection: the one that is reset.
    pub first: QdrantCollection,
    /// The declared collections after the first.
    pub rest: Vec<QdrantCollection>,
    pub phase: BootstrapPhase,
}

/// `BootstrapPhase` as plain mathematical values.
pub enum BootstrapPhaseView {
    Connecting,
    Ensuring { upcoming: usize, pending: CreateCollectionView },
    Resetting(ResetCollectionView),
}

/// `Bootstrap` as plain mathematical values.
pub struct BootstrapView {
    pub first: QdrantCollectionView,
    pub rest: Seq<QdrantCollectionView>,
    pub phase: BootstrapPhaseView,
}

impl View for BootstrapPhase {
    type V = BootstrapPhaseView;

    open spec fn view(&self) -> BootstrapPhaseView {
        match self {
            BootstrapPhase::Connecting => BootstrapPhaseView::Connecting,
            BootstrapPhase::Ensuring { upcoming, pending } => BootstrapPhaseView::Ensuring {
                upcoming: *upcoming,
                pending: pending@,
            },
            BootstrapPhase::Resetting(pending) => BootstrapPhaseView::Resetting(pending@),
        }
    }
}

impl View for Bootstrap {
    type V = BootstrapView;

    open spec fn view(&self) -> BootstrapView {
        BootstrapView { first: self.first@, rest: self.rest.deep_view(), phase: self.phase@ }
    }
}

/// The text of the error for a connection handle that could not be made.
pub open spec fn connect_failure(cause: Seq<char>) -> Seq<char> {
    "Failed to create qdrant client with error: "@ + cause
}

impl BootstrapView {
    /// The same bootstrap in another phase.
    pub open spec fn at(self, phase: BootstrapPhaseView) -> BootstrapView {
        BootstrapView { first: self.first, rest: self.rest, phase }
    }

    /// The manager that the bootstrap ends with: it knows every declared
    /// collection, in the declared order.
    pub open spec fn store(self) -> VecStoreView {
        VecStoreView { collections: seq![self.first] + self.rest }
    }

    /// A step of the creation of a collection, seen as a step of the
    /// bootstrap. When the creation is done the next declared collection is
    /// taken up; after the last one, the reset of the first.
    pub open spec fn ensuring(
        self,
        upcoming: usize,
        step: StepView<CreateCollectionView, (), ErrorView>,
    ) -> StepView<BootstrapView, VecStoreView, ErrorView> {
        match step {
            StepView::Call(pending, request) => StepView::Call(
                self.at(BootstrapPhaseView::Ensuring { upcoming, pending }),
                request,
            ),
            StepView::Done(Err(error)) => StepView::Done(Err(error)),
            StepView::Done(Ok(())) => if upcoming < self.rest.len() {
                StepView::Call(
                    self.at(
                        BootstrapPhaseView::Ensuring {
                            upcoming: (upcoming + 1) as usize,
                            pending: CreateCollectionView::Listing(self.rest[upcoming as int]),
                        },
                    ),
                    RequestView::Index(IndexRequestView::ListCollections),
                )
            } else {
                StepView::Call(
                    self.at(
                        BootstrapPhaseView::Resetting(ResetCollectionView::Deleting(self.first)),
                    ),
                    RequestView::Index(
                        IndexRequestView::DeleteCollection { name: self.first.name },
                    ),
                )
            },
        }
    }

    /// A step of the reset of the first collection, seen as a step of the
    /// bootstrap, which ends when the reset does.
    pub open spec fn resetting(self, step: StepView<ResetCollectionView, (), ErrorView>) -> StepView<
        BootstrapView,
        VecStoreView,
        ErrorView,
    > {
        match step {
            StepView::Call(pending, request) => StepView::Call(
                self.at(BootstrapPhaseView::Resetting(pending)),
                request,
            ),
            StepView::Done(Err(error)) => StepView::Done(Err(error)),
            StepView::Done(Ok(())) => StepView::Done(Ok(self.store())),
        }
    }
}

impl Bootstrap {
    /// The manager that knows the declared collections.
    fn into_store(self) -> (store: VecStore)
        ensures
            store@ == self@.store(),
    {
        let ghost rest = self.rest.deep_view();
        let ghost first = self.first@;
        let mut collections: Vec<QdrantCollection> = Vec::new();
        collections.push(self.first);
        for clct in it: self.rest.into_iter()
            invariant
                it.seq() == self.rest@,
                rest == self.rest.deep_view(),
                collections@.len() == it.index() + 1,
                collections@[0]@ == first,
                forall|j: int| 0 <= j < it.index() ==> (#[trigger] collections@[j + 1])@ == rest[j],
        {
            collections.push(clct);
        }
        let store = VecStore { collections };
        assert forall|k: int| 0 <= k < store@.collections.len() implies store@.collections[k] == (
        seq![first] + rest)[k] by {
            if k > 0 {
                assert(store.collections@[(k - 1) + 1]@ == rest[k - 1]);
            }
        }
        assert(store@.collections =~= seq![first] + rest);
        store
    }

    fn ensuring(self, upcoming: usize, step: Step<CreateCollection, (), Error>) -> (next: Step<
        Bootstrap,
        VecStore,
        Error,
    >)
        ensures
            next@ == self@.ensuring(upcoming, step@),
    {
        match step {
            Step::Call(pending, request) => Step::Call(
                Bootstrap {
                    first: self.first,
                    rest: self.rest,
                    phase: BootstrapPhase::Ensuring { upcoming, pending },
                },
                request,
            ),
            Step::Done(Err(error)) => Step::Done(Err(error)),
            Step::Done(Ok(())) => if upcoming < self.rest.len() {
                let clct = self.rest[upcoming].duplicate();
                Step::Call(
                    Bootstrap {
                        first: self.first,
                        rest: self.rest,
                        phase: BootstrapPhase::Ensuring {
                            upcoming: upcoming + 1,
                            pending: CreateCollection::Listing(clct),
                        },
                    },
                    Request::Index(IndexRequest::ListCollections),
                )
            } else {
                let clct = self.first.duplicate();
                let name = self.first.name.clone();
                Step::Call(
                    Bootstrap {
                        first: self.first,
                        rest: self.rest,
                        phase: BootstrapPhase::Resetting(ResetCollection::Deleting(clct)),
                    },
                    Request::Index(IndexRequest::DeleteCollection { name }),
                )
            },
        }
    }

    fn resetting(self, step: Step<ResetCollection, (), Error>) -> (next: Step<
        Bootstrap,
        VecStore,
        Error,
    >)
        ensures
            next@ == self@.resetting(step@),
    {
        match step {
            Step::Call(pending, request) => Step::Call(
                Bootstrap {
                    first: self.first,
                    rest: self.rest,
                    phase: BootstrapPhase::Resetting(pending),
                },
                request,
            ),
            Step::Done(Err(error)) => Step::Done(Err(error)),
            Step::Done(Ok(())) => Step::Done(Ok(self.into_store())),
        }
    }
}

impl Operation for Bootstrap {
    type Output = VecStore;

    type Error = Error;

    /// With the connection handle made, every declared collection is created
    /// in the declared order, each as `create_collection` does it. Then the
    /// first one is reset, as `reset_collection` does it. The first failure
    /// ends the bootstrap; a handle that could not be made is reported as an
    /// unusable URL.
    open spec fn next(state: BootstrapView, reply: ReplyView) -> StepView<
        BootstrapView,
        VecStoreView,
        ErrorView,
    > {
        match state.phase {
            BootstrapPhaseView::Connecting => match reply {
                ReplyView::Index(IndexReplyView::Done) => state.ensuring(
                    0,
                    VecStore::spec_create_collection(state.first),
                ),
                ReplyView::Index(IndexReplyView::Failed(text)) => StepView::Done(
                    Err(ErrorView::QdrantUrlNotFound(connect_failure(text))),
                ),
                _ => StepView::Done(
                    Err(ErrorView::QdrantUrlNotFound(connect_failure(unexpected_reply()))),
                ),
            },
            BootstrapPhaseView::Ensuring { upcoming, pending } => state.ensuring(
                upcoming,
                CreateCollection::next(pending, reply),
            ),
            BootstrapPhaseView::Resetting(pending) => state.resetting(
                ResetCollection::next(pending, reply),
            ),
        }
    }

    fn resume(self, reply: Reply) -> (step: Step<Self, VecStore, Error>) {
        let Bootstrap { first, rest, phase } = self;
        let ghost before = Bootstrap { first, rest, phase }@;
        let shell = Bootstrap { first, rest, phase: BootstrapPhase::Connecting };
        assert(forall|p: BootstrapPhaseView| #[trigger] shell@.at(p) == before.at(p));
        match phase {
            BootstrapPhase::Connecting => match reply {
                Reply::Index(IndexReply::Done) => {
                    let clct = shell.first.duplicate();
                    shell.ensuring(0, VecStore::start_creation(clct))
                },
                Reply::Index(IndexReply::Failed(text)) => Step::Done(
                    Err(
                        Error::QdrantUrlNotFound(
                            prefixed("Failed to create qdrant client with error: ", text.as_str()),
                        ),
                    ),
                ),
                _ => Step::Done(
                    Err(
                        Error::QdrantUrlNotFound(
                            prefixed(
                                "Failed to create qdrant client with error: ",
                                unexpected_reply_text().as_str(),
                            ),
                        ),
                    ),
                ),
            },
            BootstrapPhase::Ensuring { upcoming, pending } => {
                let step = pending.resume(reply);
                shell.ensuring(upcoming, step)
            },
            BootstrapPhase::Resetting(pending) => {
                let step = pending.resume(reply);
                shell.resetting(step)
            },
        }
    }
}

} // verus!
