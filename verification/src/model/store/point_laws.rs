//! What the operations on points do to an index that works as
//! `crate::model::world` says.

use crate::model::op::ReplyView;
use crate::model::store::error::{ErrorView, UpdateFailureView};
use crate::model::store::points::{
    dense_vector, entity_id, first_mismatch, has_dense_vector, point_id, points_of, scored,
    DeletePoints, GetPointEmbeddings, SearchPoints, UpdatePoints,
};
use crate::model::store::vec_store::{VecStore, VecStoreView};
use crate::model::store::vec_wire::{
    at_least_as_near, IndexReplyView, PointId, PointStructView, RetrievedPointView, ScoredPoint,
};
use crate::model::world::{retrieved, run, upserted, with_points, Points, World};
use vstd::prelude::*;

verus! {

/// Two point ids that are read as the same entity id are the same.
pub proof fn lemma_entity_id_injective(a: u64, b: u64)
    requires
        entity_id(a) == entity_id(b),
    ensures
        a == b,
{
    assert(a as i64 == b as i64 ==> a == b) by (bit_vector);
}

/// An id that is not negative is its own point id, and a point id in the
/// range of such ids is its own entity id.
pub proof fn lemma_natural_ids(id: i64, point: u64)
    ensures
        id >= 0 ==> point_id(id) == id,
        point <= i64::MAX ==> entity_id(point) == point,
{
}

/// The point id of an entity, read back as an entity id, is the entity's id;
/// and the other way round.
pub proof fn lemma_ids_round_trip(id: i64, point: u64)
    ensures
        entity_id(point_id(id)) == id,
        point_id(entity_id(point)) == point,
{
    assert((id as u64) as i64 == id) by (bit_vector);
    assert((point as i64) as u64 == point) by (bit_vector);
}

/// A filter that every element passes keeps the sequence as it is.
pub proof fn lemma_filter_keeps_all<A>(s: Seq<A>, pred: spec_fn(A) -> bool)
    requires
        forall|i: int| 0 <= i < s.len() ==> pred(#[trigger] s[i]),
    ensures
        s.filter(pred) == s,
    decreases s.len(),
{
    reveal(Seq::filter);
    if s.len() > 0 {
        lemma_filter_keeps_all(s.drop_last(), pred);
        assert(s.drop_last().push(s.last()) =~= s);
    }
}

/// A filter that no element passes keeps nothing.
pub proof fn lemma_filter_keeps_none<A>(s: Seq<A>, pred: spec_fn(A) -> bool)
    requires
        forall|i: int| 0 <= i < s.len() ==> !pred(#[trigger] s[i]),
    ensures
        s.filter(pred) == Seq::<A>::empty(),
    decreases s.len(),
{
    reveal(Seq::filter);
    if s.len() > 0 {
        lemma_filter_keeps_none(s.drop_last(), pred);
    }
}

/// Where `f` gives a value for every element, `filter_map` is `map_values`.
pub proof fn lemma_filter_map_keeps_all<A, B>(s: Seq<A>, f: spec_fn(A) -> Option<B>)
    requires
        forall|i: int| 0 <= i < s.len() ==> f(#[trigger] s[i]) is Some,
    ensures
        s.filter_map(f) == s.map_values(|a: A| f(a)->0),
    decreases s.len(),
{
    if s.len() > 0 {
        lemma_filter_map_keeps_all(s.drop_last(), f);
        assert(s.drop_last().map_values(|a: A| f(a)->0) + seq![f(s.last())->0] =~= s.map_values(
            |a: A| f(a)->0,
        ));
    } else {
        assert(s.filter_map(f) =~= s.map_values(|a: A| f(a)->0));
    }
}

/// What a collection holds after a write: the ids it held and the ids
/// written; under an id that was written, the vector of the last point
/// written under it; under any other id, what was there.
pub proof fn lemma_upserted(points: Points, written: Seq<PointStructView>)
    ensures
        forall|id: u64| #[trigger]
            upserted(points, written).contains_key(id) <==> (points.contains_key(id) || exists|
                i: int,
            |
                0 <= i < written.len() && (#[trigger] written[i]).id == id),
        forall|k: int|
            0 <= k < written.len() && (forall|j: int|
                k < j < written.len() ==> (#[trigger] written[j]).id != written[k].id)
                ==> upserted(points, written)[(#[trigger] written[k]).id] == written[k].vector,
        forall|id: u64|
            (forall|i: int| 0 <= i < written.len() ==> (#[trigger] written[i]).id != id)
                ==> #[trigger] upserted(points, written)[id] == points[id],
    decreases written.len(),
{
    if written.len() > 0 {
        let before = written.drop_last();
        let last = written.last();
        lemma_upserted(points, before);
        let held = upserted(points, before);
        assert(upserted(points, written) == held.insert(last.id, last.vector));
        assert forall|id: u64| #[trigger]
            upserted(points, written).contains_key(id) <==> (points.contains_key(id) || exists|
                i: int,
            |
                0 <= i < written.len() && (#[trigger] written[i]).id == id) by {
            if id == last.id {
                assert(written[written.len() - 1].id == id);
            } else if held.contains_key(id) {
                if !points.contains_key(id) {
                    let i = choose|i: int| 0 <= i < before.len() && (#[trigger] before[i]).id == id;
                    assert(written[i].id == id);
                }
            } else if exists|i: int| 0 <= i < written.len() && (#[trigger] written[i]).id == id {
                let i = choose|i: int| 0 <= i < written.len() && (#[trigger] written[i]).id == id;
                assert(before[i].id == id);
            }
        }
        assert forall|k: int|
            0 <= k < written.len() && (forall|j: int|
                k < j < written.len() ==> (#[trigger] written[j]).id != written[k].id) implies upserted(
            points,
            written,
        )[(#[trigger] written[k]).id] == written[k].vector by {
            if k < written.len() - 1 {
                assert(written[written.len() - 1].id != written[k].id);
                assert forall|j: int| k < j < before.len() implies (#[trigger] before[j]).id
                    != before[k].id by {
                    assert(written[j].id != written[k].id);
                }
                assert(before[k] == written[k]);
            }
        }
        assert forall|id: u64|
            (forall|i: int|
                0 <= i < written.len() ==> (#[trigger] written[i]).id != id) implies #[trigger] upserted(
            points,
            written,
        )[id] == points[id] by {
            assert(written[written.len() - 1].id != id);
            assert forall|i: int| 0 <= i < before.len() implies (#[trigger] before[i]).id != id by {
                assert(written[i].id != id);
            }
        }
    }
}

/// A complete run of `update_points` that succeeds has written the points of
/// the items, in their order, into the collection, which exists and whose
/// dimension every vector has; it changes nothing else. One that fails
/// changes nothing.
pub proof fn lemma_update_points_run(
    store: VecStoreView,
    name: Seq<char>,
    items: Seq<(i64, Seq<u32>)>,
    world: World,
    replies: Seq<ReplyView>,
)
    requires
        run::<UpdatePoints>(VecStore::spec_update_points(store, name, items), world, replies)
            is Some,
    ensures
        ({
            let ending = run::<UpdatePoints>(
                VecStore::spec_update_points(store, name, items),
                world,
                replies,
            )->0;
            if ending.result is Ok {
                &&& world.index.contains_key(name)
                &&& forall|i: int|
                    0 <= i < items.len() ==> (#[trigger] items[i]).1.len() == world.index[name].dim
                &&& ending.world == World {
                    index: with_points(
                        world.index,
                        name,
                        upserted(world.index[name].points, points_of(items)),
                    ),
                    ..world
                }
            } else {
                ending.world == world
            }
        }),
{
    reveal_with_fuel(run, 3);
    let ending = run::<UpdatePoints>(
        VecStore::spec_update_points(store, name, items),
        world,
        replies,
    )->0;
    if ending.result is Ok {
        assert forall|i: int| 0 <= i < items.len() implies (#[trigger] items[i]).1.len()
            == world.index[name].dim by {
            assert(points_of(items)[i].vector == items[i].1);
        }
    }
}

/// The vectors that a collection holds under `ids`, in the order of `ids`;
/// an id that it does not hold contributes nothing.
pub open spec fn held_vectors(points: Points, ids: Seq<u64>) -> Seq<Seq<u32>> {
    ids.filter(|id: u64| points.contains_key(id)).map_values(|id: u64| points[id])
}

/// A complete run of `get_point_embeddings` changes nothing; where it
/// succeeds the collection exists and the result is the vectors that it
/// holds under the ids, in the order of the ids.
pub proof fn lemma_get_point_embeddings_run(
    name: Seq<char>,
    ids: Seq<u64>,
    world: World,
    replies: Seq<ReplyView>,
)
    requires
        run::<GetPointEmbeddings>(VecStore::spec_get_point_embeddings(name, ids), world, replies)
            is Some,
    ensures
        ({
            let ending = run::<GetPointEmbeddings>(
                VecStore::spec_get_point_embeddings(name, ids),
                world,
                replies,
            )->0;
            &&& ending.world == world
            &&& ending.result matches Ok(vectors) ==> world.index.contains_key(name) && vectors
                == held_vectors(world.index[name].points, ids)
        }),
{
    reveal_with_fuel(run, 2);
    let ending = run::<GetPointEmbeddings>(
        VecStore::spec_get_point_embeddings(name, ids),
        world,
        replies,
    )->0;
    if ending.result is Ok {
        let points = world.index[name].points;
        let found = retrieved(points, ids);
        assert(replies[0] == ReplyView::Index(IndexReplyView::Points(found)));
        let kept = ids.filter(|id: u64| points.contains_key(id));
        assert forall|i: int| 0 <= i < found.len() implies has_dense_vector(
            #[trigger] found[i],
        ) && dense_vector(found[i]) == points[kept[i]] by {}
        assert(found.map_values(|point: RetrievedPointView| dense_vector(point)) =~= held_vectors(
            points,
            ids,
        ));
    }
}

/// A complete run of `seach_points` changes nothing. Where it succeeds the
/// collection exists and the result has at most `limit` entries, each the
/// entity id of a point that the collection holds, no id twice, nearest
/// first by the collection's metric; if it has fewer than `limit`, every
/// point of the collection is among them.
pub proof fn lemma_seach_points_run(
    name: Seq<char>,
    embedding: Seq<u32>,
    limit: u64,
    world: World,
    replies: Seq<ReplyView>,
)
    requires
        run::<SearchPoints>(
            VecStore::spec_seach_points(name, embedding, limit),
            world,
            replies,
        ) is Some,
    ensures
        ({
            let ending = run::<SearchPoints>(
                VecStore::spec_seach_points(name, embedding, limit),
                world,
                replies,
            )->0;
            &&& ending.world == world
            &&& ending.result matches Ok(scores) ==> {
                &&& world.index.contains_key(name)
                &&& scores.len() <= limit
                &&& forall|j: int, k: int|
                    0 <= j < k < scores.len() ==> (#[trigger] scores[j]).0 != (
                    #[trigger] scores[k]).0
                &&& forall|j: int, k: int|
                    0 <= j < k < scores.len() ==> at_least_as_near(
                        world.index[name].distance,
                        (#[trigger] scores[j]).1,
                        (#[trigger] scores[k]).1,
                    )
                &&& forall|k: int|
                    0 <= k < scores.len() ==> exists|id: u64| #[trigger]
                        world.index[name].points.contains_key(id) && (#[trigger] scores[k]).0
                            == entity_id(id)
                &&& scores.len() < limit ==> forall|id: u64| #[trigger]
                    world.index[name].points.contains_key(id) ==> exists|k: int|
                        0 <= k < scores.len() && (#[trigger] scores[k]).0 == entity_id(id)
            }
        }),
{
    reveal_with_fuel(run, 2);
    let ending = run::<SearchPoints>(
        VecStore::spec_seach_points(name, embedding, limit),
        world,
        replies,
    )->0;
    if ending.result is Ok {
        let points = world.index[name].points;
        let hits = replies[0]->Index_0->Hits_0;
        let scores = ending.result->Ok_0;
        let pick = |hit: ScoredPoint| scored(hit);
        assert forall|i: int| 0 <= i < hits.len() implies pick(#[trigger] hits[i]) is Some by {}
        lemma_filter_map_keeps_all(hits, pick);
        assert(scores == hits.map_values(|hit: ScoredPoint| pick(hit)->0));
        assert forall|j: int, k: int| 0 <= j < k < scores.len() implies (#[trigger] scores[j]).0
            != (#[trigger] scores[k]).0 by {
            assert(hits[j].id != hits[k].id);
            if scores[j].0 == scores[k].0 {
                lemma_entity_id_injective(hits[j].id->0->Num_0, hits[k].id->0->Num_0);
            }
        }
        assert forall|k: int| 0 <= k < scores.len() implies exists|id: u64| #[trigger]
            points.contains_key(id) && (#[trigger] scores[k]).0 == entity_id(id) by {
            let id = hits[k].id->0->Num_0;
            assert(points.contains_key(id) && scores[k].0 == entity_id(id));
        }
        assert forall|j: int, k: int| 0 <= j < k < scores.len() implies at_least_as_near(
            world.index[name].distance,
            (#[trigger] scores[j]).1,
            (#[trigger] scores[k]).1,
        ) by {
            assert(scores[j].1 == hits[j].score && scores[k].1 == hits[k].score);
        }
        if scores.len() < limit {
            assert forall|id: u64| #[trigger] points.contains_key(id) implies exists|k: int|
                0 <= k < scores.len() && (#[trigger] scores[k]).0 == entity_id(id) by {
                let k = choose|k: int|
                    0 <= k < hits.len() && (#[trigger] hits[k]).id == Some(PointId::Num(id));
                assert(scores[k].0 == entity_id(id));
            }
        }
    }
}

/// A complete run of `delete_points` that succeeds has removed the points
/// `ids` from the collection, which exists, and changed nothing else; one
/// that fails changes nothing.
pub proof fn lemma_delete_points_run(
    name: Seq<char>,
    ids: Seq<u64>,
    world: World,
    replies: Seq<ReplyView>,
)
    requires
        run::<DeletePoints>(VecStore::spec_delete_points(name, ids), world, replies) is Some,
    ensures
        ({
            let ending = run::<DeletePoints>(
                VecStore::spec_delete_points(name, ids),
                world,
                replies,
            )->0;
            if ending.result is Ok {
                &&& world.index.contains_key(name)
                &&& ending.world == World {
                    index: with_points(
                        world.index,
                        name,
                        world.index[name].points.remove_keys(ids.to_set()),
                    ),
                    ..world
                }
            } else {
                ending.world == world
            }
        }),
{
    reveal_with_fuel(run, 2);
}

/// The dimension guard. Where `name` is a declared collection and one of the
/// vectors does not have its dimension, `update_points` sends nothing: the
/// only complete run is the one without a request, it fails with a dimension
/// mismatch that names the declared dimension, and the world is as before.
pub proof fn lemma_dimension_guard(
    store: VecStoreView,
    name: Seq<char>,
    items: Seq<(i64, Seq<u32>)>,
    k: int,
    world: World,
    replies: Seq<ReplyView>,
)
    requires
        store.declared(name) is Some,
        0 <= k < items.len(),
        items[k].1.len() != store.declared(name)->0.dim,
        run::<UpdatePoints>(VecStore::spec_update_points(store, name, items), world, replies)
            is Some,
    ensures
        replies.len() == 0,
        ({
            let ending = run::<UpdatePoints>(
                VecStore::spec_update_points(store, name, items),
                world,
                replies,
            )->0;
            &&& ending.world == world
            &&& ending.result matches Err(
                ErrorView::QdrantUpdateError(
                    UpdateFailureView::DimensionMismatch { id, expected, found },
                ),
            )
            &&& expected == store.declared(name)->0.dim
        }),
{
    let dim = store.declared(name)->0.dim;
    let fits = items.map_values(|item: (i64, Seq<u32>)| item.1.len() == dim);
    assert(!fits[k]);
    fits.index_of_first_ensures(false);
    let first = first_mismatch(items, dim)->0;
    assert(!fits[first]);
    assert(VecStore::spec_update_points(store, name, items) is Done);
    reveal_with_fuel(run, 2);
}

/// The index guards its dimension too. Where the collection exists and one
/// of the vectors does not have the dimension it was created with, no
/// complete run of `update_points` succeeds, and none changes the world.
pub proof fn lemma_wrong_dimension_changes_nothing(
    store: VecStoreView,
    name: Seq<char>,
    items: Seq<(i64, Seq<u32>)>,
    k: int,
    world: World,
    replies: Seq<ReplyView>,
)
    requires
        world.index.contains_key(name),
        0 <= k < items.len(),
        items[k].1.len() != world.index[name].dim,
        run::<UpdatePoints>(VecStore::spec_update_points(store, name, items), world, replies)
            is Some,
    ensures
        ({
            let ending = run::<UpdatePoints>(
                VecStore::spec_update_points(store, name, items),
                world,
                replies,
            )->0;
            ending.world == world && ending.result is Err
        }),
{
    reveal_with_fuel(run, 3);
    assert(points_of(items)[k].vector == items[k].1);
    if VecStore::spec_update_points(store, name, items) is Done {
        let c = store.declared(name)->0;
        let fits = items.map_values(|item: (i64, Seq<u32>)| item.1.len() == c.dim);
        fits.index_of_first_ensures(false);
    }
}

/// The point ids of the items, in their order.
pub open spec fn point_ids(items: Seq<(i64, Seq<u32>)>) -> Seq<u64> {
    items.map_values(|item: (i64, Seq<u32>)| point_id(item.0))
}

/// The vectors of the items, in their order.
pub open spec fn vectors_of(items: Seq<(i64, Seq<u32>)>) -> Seq<Seq<u32>> {
    items.map_values(|item: (i64, Seq<u32>)| item.1)
}

/// What is written can be read back. After a run of `update_points` that
/// succeeded for items of pairwise different ids, a run of
/// `get_point_embeddings` for the ids of the items that succeeds returns the
/// vectors of the items: as many, in the same order, each component for
/// component.
pub proof fn lemma_written_vectors_are_read_back(
    store: VecStoreView,
    name: Seq<char>,
    items: Seq<(i64, Seq<u32>)>,
    world: World,
    writing: Seq<ReplyView>,
    reading: Seq<ReplyView>,
)
    requires
        forall|i: int, j: int| 0 <= i < j < items.len() ==> items[i].0 != items[j].0,
        run::<UpdatePoints>(VecStore::spec_update_points(store, name, items), world, writing)
            matches Some(written) && written.result is Ok && run::<GetPointEmbeddings>(
            VecStore::spec_get_point_embeddings(name, point_ids(items)),
            written.world,
            reading,
        ) is Some,
    ensures
        ({
            let written = run::<UpdatePoints>(
                VecStore::spec_update_points(store, name, items),
                world,
                writing,
            )->0;
            let read = run::<GetPointEmbeddings>(
                VecStore::spec_get_point_embeddings(name, point_ids(items)),
                written.world,
                reading,
            )->0;
            read.result matches Ok(vectors) ==> vectors == vectors_of(items)
        }),
{
    let written = run::<UpdatePoints>(
        VecStore::spec_update_points(store, name, items),
        world,
        writing,
    )->0;
    let read = run::<GetPointEmbeddings>(
        VecStore::spec_get_point_embeddings(name, point_ids(items)),
        written.world,
        reading,
    )->0;
    lemma_update_points_run(store, name, items, world, writing);
    lemma_get_point_embeddings_run(name, point_ids(items), written.world, reading);
    if read.result is Ok {
        let ids = point_ids(items);
        let before = world.index[name].points;
        let after = written.world.index[name].points;
        let points = points_of(items);
        assert(after == upserted(before, points));
        lemma_upserted(before, points);
        let held = |id: u64| after.contains_key(id);
        assert forall|i: int| 0 <= i < ids.len() implies held(#[trigger] ids[i]) by {
            assert(points[i].id == ids[i]);
        }
        lemma_filter_keeps_all(ids, held);
        assert forall|k: int| 0 <= k < items.len() implies after[#[trigger] ids[k]]
            == items[k].1 by {
            assert forall|j: int| k < j < points.len() implies (#[trigger] points[j]).id
                != points[k].id by {
                lemma_ids_round_trip(items[j].0, 0);
                lemma_ids_round_trip(items[k].0, 0);
            }
            assert(points[k].id == ids[k] && points[k].vector == items[k].1);
        }
        assert(read.result->Ok_0 =~= vectors_of(items));
    }
}

/// What is deleted cannot be read. After a run of `delete_points` that
/// succeeded, a run of `get_point_embeddings` that asks for deleted ids only
/// and succeeds returns nothing.
pub proof fn lemma_deleted_points_are_not_read(
    name: Seq<char>,
    ids: Seq<u64>,
    asked: Seq<u64>,
    world: World,
    deleting: Seq<ReplyView>,
    reading: Seq<ReplyView>,
)
    requires
        forall|i: int| 0 <= i < asked.len() ==> ids.contains(#[trigger] asked[i]),
        run::<DeletePoints>(VecStore::spec_delete_points(name, ids), world, deleting) matches Some(
            deleted,
        ) && deleted.result is Ok && run::<GetPointEmbeddings>(
            VecStore::spec_get_point_embeddings(name, asked),
            deleted.world,
            reading,
        ) is Some,
    ensures
        ({
            let deleted = run::<DeletePoints>(
                VecStore::spec_delete_points(name, ids),
                world,
                deleting,
            )->0;
            let read = run::<GetPointEmbeddings>(
                VecStore::spec_get_point_embeddings(name, asked),
                deleted.world,
                reading,
            )->0;
            read.result matches Ok(vectors) ==> vectors.len() == 0
        }),
{
    let deleted = run::<DeletePoints>(VecStore::spec_delete_points(name, ids), world, deleting)->0;
    lemma_delete_points_run(name, ids, world, deleting);
    lemma_get_point_embeddings_run(name, asked, deleted.world, reading);
    let after = deleted.world.index[name].points;
    lemma_filter_keeps_none(asked, |id: u64| after.contains_key(id));
}

/// What is deleted cannot be found. After a run of `delete_points` that
/// succeeded, no run of `seach_points` on the collection returns the entity
/// id of a deleted point.
pub proof fn lemma_deleted_points_are_not_found(
    name: Seq<char>,
    ids: Seq<u64>,
    embedding: Seq<u32>,
    limit: u64,
    world: World,
    deleting: Seq<ReplyView>,
    searching: Seq<ReplyView>,
)
    requires
        run::<DeletePoints>(VecStore::spec_delete_points(name, ids), world, deleting) matches Some(
            deleted,
        ) && deleted.result is Ok && run::<SearchPoints>(
            VecStore::spec_seach_points(name, embedding, limit),
            deleted.world,
            searching,
        ) is Some,
    ensures
        ({
            let deleted = run::<DeletePoints>(
                VecStore::spec_delete_points(name, ids),
                world,
                deleting,
            )->0;
            let found = run::<SearchPoints>(
                VecStore::spec_seach_points(name, embedding, limit),
                deleted.world,
                searching,
            )->0;
            found.result matches Ok(scores) ==> forall|k: int, i: int|
                0 <= k < scores.len() && 0 <= i < ids.len() ==> (#[trigger] scores[k]).0
                    != entity_id(#[trigger] ids[i])
        }),
{
    let deleted = run::<DeletePoints>(VecStore::spec_delete_points(name, ids), world, deleting)->0;
    let found = run::<SearchPoints>(
        VecStore::spec_seach_points(name, embedding, limit),
        deleted.world,
        searching,
    )->0;
    lemma_delete_points_run(name, ids, world, deleting);
    lemma_seach_points_run(name, embedding, limit, deleted.world, searching);
    if found.result is Ok {
        let scores = found.result->Ok_0;
        let after = deleted.world.index[name].points;
        assert forall|k: int, i: int|
            0 <= k < scores.len() && 0 <= i < ids.len() implies (#[trigger] scores[k]).0
            != entity_id(#[trigger] ids[i]) by {
            let held = choose|id: u64| #[trigger]
                after.contains_key(id) && scores[k].0 == entity_id(id);
            assert(ids.to_set().contains(ids[i]));
            if scores[k].0 == entity_id(ids[i]) {
                lemma_entity_id_injective(held, ids[i]);
            }
        }
    }
}

/// A search finds the only point. After a run of `update_points` that
/// succeeded in writing one point into a collection that held none, a run of
/// `seach_points` on that collection for at least one point that succeeds
/// returns one entry, and it carries the id that was written.
pub proof fn lemma_search_finds_the_only_point(
    store: VecStoreView,
    name: Seq<char>,
    id: i64,
    vector: Seq<u32>,
    query: Seq<u32>,
    limit: u64,
    world: World,
    writing: Seq<ReplyView>,
    searching: Seq<ReplyView>,
)
    requires
        limit >= 1,
        world.index.contains_key(name) ==> world.index[name].points == Map::<
            u64,
            Seq<u32>,
        >::empty(),
        run::<UpdatePoints>(
            VecStore::spec_update_points(store, name, seq![(id, vector)]),
            world,
            writing,
        ) matches Some(written) && written.result is Ok && run::<SearchPoints>(
            VecStore::spec_seach_points(name, query, limit),
            written.world,
            searching,
        ) is Some,
    ensures
        ({
            let written = run::<UpdatePoints>(
                VecStore::spec_update_points(store, name, seq![(id, vector)]),
                world,
                writing,
            )->0;
            let found = run::<SearchPoints>(
                VecStore::spec_seach_points(name, query, limit),
                written.world,
                searching,
            )->0;
            found.result matches Ok(scores) ==> scores.len() == 1 && scores[0].0 == id
        }),
{
    let items = seq![(id, vector)];
    let written = run::<UpdatePoints>(
        VecStore::spec_update_points(store, name, items),
        world,
        writing,
    )->0;
    let found = run::<SearchPoints>(
        VecStore::spec_seach_points(name, query, limit),
        written.world,
        searching,
    )->0;
    lemma_update_points_run(store, name, items, world, writing);
    lemma_seach_points_run(name, query, limit, written.world, searching);
    if found.result is Ok {
        let scores = found.result->Ok_0;
        let before = world.index[name].points;
        let after = written.world.index[name].points;
        let points = points_of(items);
        lemma_upserted(before, points);
        lemma_ids_round_trip(id, 0);
        assert(points[0].id == point_id(id));
        assert(after.contains_key(point_id(id)));
        assert forall|n: u64| #[trigger] after.contains_key(n) implies n == point_id(id) by {
            let i = choose|i: int| 0 <= i < points.len() && (#[trigger] points[i]).id == n;
        }
        assert forall|k: int| 0 <= k < scores.len() implies (#[trigger] scores[k]).0 == id by {
            let n = choose|n: u64| #[trigger] after.contains_key(n) && scores[k].0 == entity_id(n);
        }
        if scores.len() >= 2 {
            assert(scores[0].0 != scores[1].0);
        }
    }
}

} // verus!
