//! What the bootstrap of the vector store manager achieves in an index that
//! works as `crate::model::world` says.

use crate::config::{QdrantCollectionView, QdrantView};
use crate::model::op::{Operation, ReplyView, StepView};
use crate::model::store::bootstrap::{Bootstrap, BootstrapView};
use crate::model::store::collection_laws::lemma_reset_collection_run;
use crate::model::store::collections::{
    distance_named, CreateCollection, CreateCollectionView, ResetCollection, ResetCollectionView,
};
use crate::model::store::error::ErrorView;
use crate::model::store::vec_store::{VecStore, VecStoreView};
use crate::model::world::{fresh, run, Ending, Index, World};
use vstd::prelude::*;

verus! {

/// A run of the reset, seen as part of the bootstrap, is the run of the reset
/// with the manager as its result.
proof fn lemma_resetting_run(
    state: BootstrapView,
    step: StepView<ResetCollectionView, (), ErrorView>,
    world: World,
    replies: Seq<ReplyView>,
)
    ensures
        run::<Bootstrap>(state.resetting(step), world, replies) == match run::<ResetCollection>(
            step,
            world,
            replies,
        ) {
            Some(ending) => Some(
                Ending {
                    world: ending.world,
                    result: match ending.result {
                        Ok(()) => Ok(state.store()),
                        Err(error) => Err(error),
                    },
                },
            ),
            None => None,
        },
    decreases replies.len(),
{
    reveal_with_fuel(run, 2);
    if let StepView::Call(pending, request) = step {
        if replies.len() > 0 && world.admits(request, replies[0]) {
            lemma_resetting_run(
                state,
                ResetCollection::next(pending, replies[0]),
                world.after(request, replies[0]),
                replies.drop_first(),
            );
        }
    }
}

/// What a bootstrap that succeeded has made of the index, from the moment
/// that the declared collections before `upcoming` were taken care of: the
/// declared collections from `upcoming` on exist, the first one is as fresh
/// as after its creation, and every other collection that existed is as it
/// was.
pub open spec fn bootstrapped(
    state: BootstrapView,
    upcoming: int,
    before: Index,
    after: Index,
) -> bool {
    &&& forall|i: int|
        upcoming <= i < state.rest.len() ==> after.contains_key((#[trigger] state.rest[i]).name)
    &&& distance_named(state.first.distance) matches Some(distance)
    &&& after.contains_key(state.first.name)
    &&& after[state.first.name] == fresh(state.first.dim, distance)
    &&& forall|name: Seq<char>|
        #[trigger] before.contains_key(name) && name != state.first.name ==> after.contains_key(
            name,
        ) && after[name] == before[name]
}

/// The bootstrap from the moment a declared collection is known to exist.
proof fn lemma_ensured_run(
    state: BootstrapView,
    upcoming: usize,
    world: World,
    replies: Seq<ReplyView>,
)
    requires
        upcoming <= state.rest.len() <= usize::MAX,
        run::<Bootstrap>(state.ensuring(upcoming, StepView::Done(Ok(()))), world, replies) matches Some(
            ending,
        ) && ending.result is Ok,
    ensures
        ({
            let ending = run::<Bootstrap>(
                state.ensuring(upcoming, StepView::Done(Ok(()))),
                world,
                replies,
            )->0;
            &&& ending.result == Ok::<VecStoreView, ErrorView>(state.store())
            &&& ending.world == World { index: ending.world.index, ..world }
            &&& bootstrapped(state, upcoming as int, world.index, ending.world.index)
        }),
    decreases state.rest.len() - upcoming, 0int,
{
    if upcoming < state.rest.len() {
        let clct = state.rest[upcoming as int];
        assert(state.ensuring(upcoming, StepView::Done(Ok(()))) == state.ensuring(
            (upcoming + 1) as usize,
            VecStore::spec_create_collection(clct),
        ));
        lemma_ensuring_run(state, (upcoming + 1) as usize, clct, world, replies);
    } else {
        assert(state.ensuring(upcoming, StepView::Done(Ok(()))) == state.resetting(
            VecStore::spec_reset_collection(state.first),
        ));
        lemma_resetting_run(state, VecStore::spec_reset_collection(state.first), world, replies);
        lemma_reset_collection_run(state.first, world, replies);
    }
}

/// The bootstrap from the moment the creation of the declared collection
/// `clct` starts; the declared collections before `upcoming` are `clct` and
/// those taken care of earlier.
proof fn lemma_ensuring_run(
    state: BootstrapView,
    upcoming: usize,
    clct: QdrantCollectionView,
    world: World,
    replies: Seq<ReplyView>,
)
    requires
        upcoming <= state.rest.len() <= usize::MAX,
        run::<Bootstrap>(
            state.ensuring(upcoming, VecStore::spec_create_collection(clct)),
            world,
            replies,
        ) matches Some(ending) && ending.result is Ok,
    ensures
        ({
            let ending = run::<Bootstrap>(
                state.ensuring(upcoming, VecStore::spec_create_collection(clct)),
                world,
                replies,
            )->0;
            &&& ending.result == Ok::<VecStoreView, ErrorView>(state.store())
            &&& ending.world == World { index: ending.world.index, ..world }
            &&& ending.world.index.contains_key(clct.name)
            &&& bootstrapped(state, upcoming as int, world.index, ending.world.index)
        }),
    decreases state.rest.len() - upcoming, 1int,
{
    reveal_with_fuel(run, 3);
    let start = state.ensuring(upcoming, VecStore::spec_create_collection(clct));
    let listed = CreateCollection::next(start->Call_0.phase->Ensuring_pending, replies[0]);
    let after_list = world.after(start->Call_1, replies[0]);
    assert(after_list == world);
    let rest = replies.drop_first();
    if listed is Done {
        assert(listed == StepView::<CreateCollectionView, (), ErrorView>::Done(Ok(())));
        assert(world.index.contains_key(clct.name));
        lemma_ensured_run(state, upcoming, world, rest);
    } else {
        let created = CreateCollection::next(listed->Call_0, rest[0]);
        let after_create = world.after(listed->Call_1, rest[0]);
        assert(created == StepView::<CreateCollectionView, (), ErrorView>::Done(Ok(())));
        lemma_ensured_run(state, upcoming, after_create, rest.drop_first());
        let ending = run::<Bootstrap>(start, world, replies)->0;
        assert(after_create.index.contains_key(clct.name));
        assert forall|name: Seq<char>|
            #[trigger] world.index.contains_key(name) && name
                != state.first.name implies ending.world.index.contains_key(name)
            && ending.world.index[name] == world.index[name] by {
            assert(after_create.index.contains_key(name));
        }
    }
}

/// What a bootstrap that succeeds achieves. The manager it returns knows the
/// declared collections in their order. In the index every declared
/// collection exists; the first one holds no point and has the declared
/// dimension and metric; every other collection that existed before is as
/// it was. Nothing outside the index has changed.
///
/// The declared collections are at least one and no more than a vector
/// holds.
pub proof fn lemma_from_config_run(config: QdrantView, world: World, replies: Seq<ReplyView>)
    requires
        0 < config.collections.len() <= usize::MAX,
        run::<Bootstrap>(VecStore::spec_from_config(config), world, replies) matches Some(ending)
            && ending.result is Ok,
    ensures
        ({
            let ending = run::<Bootstrap>(VecStore::spec_from_config(config), world, replies)->0;
            let first = config.collections[0];
            &&& ending.result == Ok::<VecStoreView, ErrorView>(
                VecStoreView { collections: config.collections },
            )
            &&& ending.world == World { index: ending.world.index, ..world }
            &&& forall|i: int|
                0 <= i < config.collections.len() ==> ending.world.index.contains_key(
                    (#[trigger] config.collections[i]).name,
                )
            &&& distance_named(first.distance) matches Some(distance)
            &&& ending.world.index[first.name] == fresh(first.dim, distance)
            &&& forall|name: Seq<char>|
                #[trigger] world.index.contains_key(name) && name != first.name
                    ==> ending.world.index.contains_key(name) && ending.world.index[name]
                    == world.index[name]
        }),
{
    reveal_with_fuel(run, 2);
    let start = VecStore::spec_from_config(config);
    let state = start->Call_0;
    assert(world.after(start->Call_1, replies[0]) == world);
    assert(Bootstrap::next(state, replies[0]) == state.ensuring(
        0,
        VecStore::spec_create_collection(state.first),
    ));
    lemma_ensuring_run(state, 0, state.first, world, replies.drop_first());
    let ending = run::<Bootstrap>(start, world, replies)->0;
    assert(state.store().collections =~= config.collections);
    assert forall|i: int| 0 <= i < config.collections.len() implies ending.world.index.contains_key(
        (#[trigger] config.collections[i]).name,
    ) by {
        if i > 0 {
            assert(state.rest[i - 1] == config.collections[i]);
        }
    }
}

} // verus!
