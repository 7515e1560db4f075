//! What the operations on collections do to an index that works as
//! `crate::model::world` says.

use crate::config::QdrantCollectionView;
use crate::model::op::ReplyView;
use crate::model::store::collections::{
    distance_named, recreating, CreateCollection, DeleteCollection, ListCollections,
    ResetCollection,
};
use crate::model::store::vec_store::VecStore;
use crate::model::store::vec_wire::IndexReplyView;
use crate::model::world::{fresh, run, World};
use vstd::prelude::*;

verus! {

/// A complete run of `list_collections` changes nothing; where it succeeds
/// it returns the name of every collection of the index, each once.
pub proof fn lemma_list_collections_run(world: World, replies: Seq<ReplyView>)
    requires
        run::<ListCollections>(VecStore::spec_list_collections(), world, replies) is Some,
    ensures
        ({
            let ending = run::<ListCollections>(VecStore::spec_list_collections(), world, replies)->0;
            &&& ending.world == world
            &&& ending.result matches Ok(names) ==> names.no_duplicates() && names.to_set()
                == world.index.dom()
        }),
{
    reveal_with_fuel(run, 2);
}

/// A complete run of `create_collection` changes nothing when it fails or
/// when the name was taken. Otherwise it adds the collection, empty, with the
/// declared dimension and metric, and changes nothing else.
pub proof fn lemma_create_collection_run(
    clct: QdrantCollectionView,
    world: World,
    replies: Seq<ReplyView>,
)
    requires
        run::<CreateCollection>(VecStore::spec_create_collection(clct), world, replies) is Some,
    ensures
        ({
            let ending = run::<CreateCollection>(
                VecStore::spec_create_collection(clct),
                world,
                replies,
            )->0;
            if ending.result is Err || world.index.contains_key(clct.name) {
                ending.world == world
            } else {
                &&& distance_named(clct.distance) matches Some(distance)
                &&& ending.world == World {
                    index: world.index.insert(clct.name, fresh(clct.dim, distance)),
                    ..world
                }
            }
        }),
{
    reveal_with_fuel(run, 3);
}

/// Creating a collection is idempotent. After a run of `create_collection`
/// that succeeded the collection exists; a second run with the same
/// descriptor sends the listing and nothing else, leaves the index as it
/// found it, and succeeds unless the listing itself fails.
pub proof fn lemma_create_collection_twice(
    clct: QdrantCollectionView,
    world: World,
    first: Seq<ReplyView>,
    second: Seq<ReplyView>,
)
    requires
        run::<CreateCollection>(VecStore::spec_create_collection(clct), world, first) matches Some(
            once,
        ) && once.result is Ok && run::<CreateCollection>(
            VecStore::spec_create_collection(clct),
            once.world,
            second,
        ) is Some,
    ensures
        ({
            let once = run::<CreateCollection>(
                VecStore::spec_create_collection(clct),
                world,
                first,
            )->0;
            let twice = run::<CreateCollection>(
                VecStore::spec_create_collection(clct),
                once.world,
                second,
            )->0;
            &&& once.world.index.contains_key(clct.name)
            &&& twice.world == once.world
            &&& second.len() == 1
            &&& second[0] is Index
            &&& twice.result is Err <==> second[0]->Index_0 is Failed
        }),
{
    lemma_create_collection_run(clct, world, first);
    reveal_with_fuel(run, 3);
}

/// A complete run of `delete_collection` that succeeds removes the
/// collection, which existed, and changes nothing else; one that fails
/// changes nothing.
pub proof fn lemma_delete_collection_run(name: Seq<char>, world: World, replies: Seq<ReplyView>)
    requires
        run::<DeleteCollection>(VecStore::spec_delete_collection(name), world, replies) is Some,
    ensures
        ({
            let ending = run::<DeleteCollection>(
                VecStore::spec_delete_collection(name),
                world,
                replies,
            )->0;
            if ending.result is Ok {
                &&& world.index.contains_key(name)
                &&& ending.world == World { index: world.index.remove(name), ..world }
            } else {
                ending.world == world
            }
        }),
{
    reveal_with_fuel(run, 2);
}

/// From the moment the collection is gone, a reset runs as the creation does.
proof fn lemma_recreating_run(clct: QdrantCollectionView, world: World, replies: Seq<ReplyView>)
    ensures
        run::<ResetCollection>(
            recreating(VecStore::spec_create_collection(clct)),
            world,
            replies,
        ) == run::<CreateCollection>(VecStore::spec_create_collection(clct), world, replies),
{
    reveal_with_fuel(run, 3);
}

/// A complete run of `reset_collection` that succeeds leaves the collection
/// in place with the declared dimension and metric and without a single
/// point, whatever it held before, and changes nothing else. One that fails
/// leaves the collection either untouched or absent.
pub proof fn lemma_reset_collection_run(
    clct: QdrantCollectionView,
    world: World,
    replies: Seq<ReplyView>,
)
    requires
        run::<ResetCollection>(VecStore::spec_reset_collection(clct), world, replies) is Some,
    ensures
        ({
            let ending = run::<ResetCollection>(
                VecStore::spec_reset_collection(clct),
                world,
                replies,
            )->0;
            if ending.result is Ok {
                &&& world.index.contains_key(clct.name)
                &&& distance_named(clct.distance) matches Some(distance)
                &&& ending.world == World {
                    index: world.index.insert(clct.name, fresh(clct.dim, distance)),
                    ..world
                }
            } else {
                ||| ending.world == world
                ||| ending.world == World { index: world.index.remove(clct.name), ..world }
            }
        }),
{
    reveal_with_fuel(run, 4);
    if replies.len() > 0 && world.admits(VecStore::spec_reset_collection(clct)->Call_1, replies[0])
        && replies[0] == ReplyView::Index(IndexReplyView::Done) {
        let gone = World { index: world.index.remove(clct.name), ..world };
        assert(world.after(VecStore::spec_reset_collection(clct)->Call_1, replies[0]) == gone);
        let rest = replies.drop_first();
        lemma_recreating_run(clct, gone, rest);
        lemma_create_collection_run(clct, gone, rest);
        assert(gone.index.insert(clct.name, fresh(clct.dim, distance_named(clct.distance)->0))
            =~= world.index.insert(clct.name, fresh(clct.dim, distance_named(clct.distance)->0)));
    }
}

} // verus!
