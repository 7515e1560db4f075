//! What the coordinator of tasks does to stores that work as
//! `crate::model::world` says.

use crate::model::embedder::EmbedReplyView;
use crate::model::error::ErrorView;
use crate::model::op::{Operation, ReplyView, StepView};
use crate::model::store::db_store::DbReplyView;
use crate::model::store::point_laws::{
    lemma_delete_points_run, lemma_ids_round_trip, lemma_update_points_run,
};
use crate::model::store::points::{entity_id, point_id, points_of, DeletePoints, UpdatePoints};
use crate::model::store::vec_store::VecStore;
use crate::model::task::{
    created, removing, task_collection, task_not_found, task_table, updated, upserting,
    CreateTask, DeleteTask, Mirror, MirrorView, ReadTask, TaskBmc, TaskView, UpdateTask,
};
use crate::model::world::{reached, run, upserted, with_points, Ending, World};
use crate::model::ModelManagerView;
use vstd::prelude::*;

verus! {

/// The vector that the embedder returned in a run of a mirroring: the first
/// one of the first reply.
pub open spec fn embedded(replies: Seq<ReplyView>) -> Seq<u32> {
    replies[0]->Embed_0->Data_0[0]
}

/// The world with the point of task `id` written: its vector is `vector`.
pub open spec fn with_task_point(world: World, id: i64, vector: Seq<u32>) -> World {
    World {
        index: with_points(
            world.index,
            task_collection(),
            world.index[task_collection()].points.insert(point_id(id), vector),
        ),
        ..world
    }
}

/// The world with the row of task `id` written: its story is `story`.
pub open spec fn with_task_row(world: World, id: i64, story: Seq<char>) -> World {
    World {
        tables: world.tables.insert(task_table(), world.tables[task_table()].insert(id, story)),
        ..world
    }
}

/// The world without the row of task `id`.
pub open spec fn without_task_row(world: World, id: i64) -> World {
    World {
        tables: world.tables.insert(task_table(), world.tables[task_table()].remove(id)),
        ..world
    }
}

/// The world without the point of task `id`.
pub open spec fn without_task_point(world: World, id: i64) -> World {
    World {
        index: with_points(
            world.index,
            task_collection(),
            world.index[task_collection()].points.remove(point_id(id)),
        ),
        ..world
    }
}

/// True when the relational store holds a row for task `id`.
pub open spec fn has_task_row(world: World, id: i64) -> bool {
    world.tables.contains_key(task_table()) && world.tables[task_table()].contains_key(id)
}

/// True when the vector index holds a point for task `id`.
pub open spec fn has_task_point(world: World, id: i64) -> bool {
    world.index.contains_key(task_collection()) && world.index[task_collection()].points.contains_key(
        point_id(id),
    )
}

/// A run of the write, seen as part of a mirroring, is the run of the write
/// with the store's failure wrapped.
proof fn lemma_upserting_run(
    step: StepView<UpdatePoints, (), crate::model::store::error::ErrorView>,
    world: World,
    replies: Seq<ReplyView>,
)
    ensures
        run::<Mirror>(upserting(step), world, replies) == match run::<UpdatePoints>(
            step,
            world,
            replies,
        ) {
            Some(ending) => Some(
                Ending {
                    world: ending.world,
                    result: match ending.result {
                        Ok(()) => Ok(()),
                        Err(error) => Err(ErrorView::Store(error)),
                    },
                },
            ),
            None => None,
        },
    decreases replies.len(),
{
    reveal_with_fuel(run, 2);
    if let StepView::Call(pending, request) = step {
        if replies.len() > 0 && world.admits(request, replies[0]) {
            lemma_upserting_run(
                UpdatePoints::next(pending, replies[0]),
                world.after(request, replies[0]),
                replies.drop_first(),
            );
        }
    }
}

/// A complete run of a mirroring leaves the relational store alone. Where it
/// succeeds the embedder returned one vector, of its dimension, and the
/// point of the row holds that vector; nothing else in the index changed.
/// Where it fails nothing changed at all.
pub proof fn lemma_mirror_run(
    mm: ModelManagerView,
    id: i64,
    story: Seq<char>,
    world: World,
    replies: Seq<ReplyView>,
)
    requires
        run::<Mirror>(Mirror::spec_start(mm, id, story), world, replies) is Some,
    ensures
        ({
            let ending = run::<Mirror>(Mirror::spec_start(mm, id, story), world, replies)->0;
            if ending.result is Ok {
                &&& replies.len() == 2
                &&& replies[0] matches ReplyView::Embed(EmbedReplyView::Data(vectors))
                &&& vectors.len() == 1
                &&& embedded(replies).len() == world.embedding_dim
                &&& world.index.contains_key(task_collection())
                &&& ending.world == with_task_point(world, id, embedded(replies))
            } else {
                &&& ending.world == world
                &&& ending.result->Err_0 is Embedder || ending.result->Err_0 is Store
            }
        }),
{
    reveal_with_fuel(run, 2);
    let ending = run::<Mirror>(Mirror::spec_start(mm, id, story), world, replies)->0;
    let start = Mirror::spec_start(mm, id, story);
    let request = start->Call_1;
    if replies.len() > 0 && replies[0] is Embed && replies[0]->Embed_0 is Data {
        let vector = embedded(replies);
        let items = seq![(id, vector)];
        let write = VecStore::spec_update_points(mm.vs, task_collection(), items);
        let rest = replies.drop_first();
        assert(world.after(request, replies[0]) == world);
        assert(ending == run::<Mirror>(upserting(write), world, rest)->0);
        lemma_upserting_run(write, world, rest);
        lemma_update_points_run(mm.vs, task_collection(), items, world, rest);
        if ending.result is Ok {
            let points = world.index[task_collection()].points;
            assert(points_of(items) =~= seq![points_of(items)[0]]);
            reveal_with_fuel(Seq::fold_left, 2);
            assert(points_of(items).drop_last() =~= Seq::empty());
            assert(upserted(points, points_of(items)) == points.insert(point_id(id), vector));
            assert(rest.len() == 1);
        }
    }
}

/// A run of a mirroring, seen as part of a creation, is the run of the
/// mirroring with the id of the row as its result.
proof fn lemma_created_run(
    id: i64,
    step: StepView<MirrorView, (), ErrorView>,
    world: World,
    replies: Seq<ReplyView>,
)
    ensures
        run::<CreateTask>(created(id, step), world, replies) == match run::<Mirror>(
            step,
            world,
            replies,
        ) {
            Some(ending) => Some(
                Ending {
                    world: ending.world,
                    result: match ending.result {
                        Ok(()) => Ok(id),
                        Err(error) => Err(error),
                    },
                },
            ),
            None => None,
        },
    decreases replies.len(),
{
    reveal_with_fuel(run, 2);
    if let StepView::Call(pending, request) = step {
        if replies.len() > 0 && world.admits(request, replies[0]) {
            lemma_created_run(
                id,
                Mirror::next(pending, replies[0]),
                world.after(request, replies[0]),
                replies.drop_first(),
            );
        }
    }
}

/// A run of a mirroring, seen as part of an update, is the run of the
/// mirroring.
proof fn lemma_updated_run(
    step: StepView<MirrorView, (), ErrorView>,
    world: World,
    replies: Seq<ReplyView>,
)
    ensures
        run::<UpdateTask>(updated(step), world, replies) == run::<Mirror>(step, world, replies),
    decreases replies.len(),
{
    reveal_with_fuel(run, 2);
    if let StepView::Call(pending, request) = step {
        if replies.len() > 0 && world.admits(request, replies[0]) {
            lemma_updated_run(
                Mirror::next(pending, replies[0]),
                world.after(request, replies[0]),
                replies.drop_first(),
            );
        }
    }
}

/// A run of the removal of a point, seen as part of a deletion, is the run
/// of the removal with the store's failure wrapped.
proof fn lemma_removing_run(
    step: StepView<DeletePoints, (), crate::model::store::error::ErrorView>,
    world: World,
    replies: Seq<ReplyView>,
)
    ensures
        run::<DeleteTask>(removing(step), world, replies) == match run::<DeletePoints>(
            step,
            world,
            replies,
        ) {
            Some(ending) => Some(
                Ending {
                    world: ending.world,
                    result: match ending.result {
                        Ok(()) => Ok(()),
                        Err(error) => Err(ErrorView::Store(error)),
                    },
                },
            ),
            None => None,
        },
    decreases replies.len(),
{
    reveal_with_fuel(run, 2);
    if let StepView::Call(pending, request) = step {
        if replies.len() > 0 && world.admits(request, replies[0]) {
            lemma_removing_run(
                DeletePoints::next(pending, replies[0]),
                world.after(request, replies[0]),
                replies.drop_first(),
            );
        }
    }
}

/// A complete run of `create` that succeeds returns an id that no row had;
/// afterwards the row of that id holds the story and the point of that id
/// holds the vector that the embedder returned for it. One that fails leaves
/// the vector index as it was; the relational store is as it was, or holds
/// the new row without a point.
pub proof fn lemma_create_run(
    mm: ModelManagerView,
    story: Seq<char>,
    world: World,
    replies: Seq<ReplyView>,
)
    requires
        run::<CreateTask>(TaskBmc::spec_create(mm, story), world, replies) is Some,
    ensures
        ({
            let ending = run::<CreateTask>(TaskBmc::spec_create(mm, story), world, replies)->0;
            match ending.result {
                Ok(id) => {
                    &&& replies.len() == 3
                    &&& replies[0] == ReplyView::Db(DbReplyView::Inserted(id))
                    &&& !has_task_row(world, id)
                    &&& world.index.contains_key(task_collection())
                    &&& ending.world == with_task_point(
                        with_task_row(world, id, story),
                        id,
                        embedded(replies.drop_first()),
                    )
                },
                Err(error) => {
                    ||| ending.world == world
                    ||| {
                        &&& replies.len() > 0
                        &&& replies[0] matches ReplyView::Db(DbReplyView::Inserted(id))
                        &&& !has_task_row(world, id)
                        &&& ending.world == with_task_row(world, id, story)
                        &&& !(error is Sqlx)
                    }
                },
            }
        }),
{
    reveal_with_fuel(run, 2);
    let start = TaskBmc::spec_create(mm, story);
    let request = start->Call_1;
    if replies.len() > 0 && replies[0] is Db && replies[0]->Db_0 is Inserted {
        let id = replies[0]->Db_0->Inserted_0;
        let inserted = world.after(request, replies[0]);
        assert(inserted == with_task_row(world, id, story));
        let rest = replies.drop_first();
        lemma_created_run(id, Mirror::spec_start(mm, id, story), inserted, rest);
        lemma_mirror_run(mm, id, story, inserted, rest);
    }
}

/// A complete run of `update` that succeeds found the row; afterwards the
/// row holds the new story and the point of the same id holds the vector
/// that the embedder returned for it. One that fails leaves the vector index
/// as it was; the relational store is as it was, or holds the new story
/// while the point is the old one.
pub proof fn lemma_update_run(
    mm: ModelManagerView,
    id: i64,
    story: Seq<char>,
    world: World,
    replies: Seq<ReplyView>,
)
    requires
        run::<UpdateTask>(TaskBmc::spec_update(mm, id, story), world, replies) is Some,
    ensures
        ({
            let ending = run::<UpdateTask>(TaskBmc::spec_update(mm, id, story), world, replies)->0;
            match ending.result {
                Ok(()) => {
                    &&& replies.len() == 3
                    &&& has_task_row(world, id)
                    &&& world.index.contains_key(task_collection())
                    &&& ending.world == with_task_point(
                        with_task_row(world, id, story),
                        id,
                        embedded(replies.drop_first()),
                    )
                },
                Err(error) => {
                    ||| ending.world == world
                    ||| {
                        &&& has_task_row(world, id)
                        &&& ending.world == with_task_row(world, id, story)
                        &&& !(error is Sqlx)
                        &&& !(error is EntityNotFound)
                    }
                },
            }
        }),
{
    reveal_with_fuel(run, 2);
    let start = TaskBmc::spec_update(mm, id, story);
    let request = start->Call_1;
    if replies.len() > 0 && replies[0] is Db && replies[0]->Db_0 is Affected
        && replies[0]->Db_0->Affected_0 > 0 {
        let written = world.after(request, replies[0]);
        assert(written == with_task_row(world, id, story));
        let rest = replies.drop_first();
        lemma_updated_run(Mirror::spec_start(mm, id, story), written, rest);
        lemma_mirror_run(mm, id, story, written, rest);
    }
}

/// A complete run of `read` changes nothing. It returns the row of the id
/// when there is one, and entity-not-found when there is none, unless the
/// query itself failed.
pub proof fn lemma_read_run(id: i64, world: World, replies: Seq<ReplyView>)
    requires
        run::<ReadTask>(TaskBmc::spec_read(id), world, replies) is Some,
    ensures
        ({
            let ending = run::<ReadTask>(TaskBmc::spec_read(id), world, replies)->0;
            &&& ending.world == world
            &&& replies.len() == 1
            &&& match ending.result {
                Ok(task) => has_task_row(world, id) && task == TaskView {
                    id,
                    story: world.tables[task_table()][id],
                },
                Err(error) => match replies[0] {
                    ReplyView::Db(DbReplyView::Failed(text)) => error == ErrorView::Sqlx(text),
                    _ => !has_task_row(world, id) && error == task_not_found(id),
                },
            }
        }),
{
    reveal_with_fuel(run, 2);
}

/// A complete run of `delete` that succeeds found the row; afterwards
/// neither the row nor the point of that id exists. One that fails has
/// changed nothing, or has removed the row and left the point behind.
pub proof fn lemma_delete_run(id: i64, world: World, replies: Seq<ReplyView>)
    requires
        run::<DeleteTask>(TaskBmc::spec_delete(id), world, replies) is Some,
    ensures
        ({
            let ending = run::<DeleteTask>(TaskBmc::spec_delete(id), world, replies)->0;
            match ending.result {
                Ok(()) => {
                    &&& replies.len() == 2
                    &&& has_task_row(world, id)
                    &&& world.index.contains_key(task_collection())
                    &&& ending.world == without_task_point(without_task_row(world, id), id)
                },
                Err(error) => {
                    ||| ending.world == world
                    ||| {
                        &&& has_task_row(world, id)
                        &&& ending.world == without_task_row(world, id)
                        &&& error is Store
                    }
                },
            }
        }),
{
    reveal_with_fuel(run, 2);
    let start = TaskBmc::spec_delete(id);
    let request = start->Call_1;
    if replies.len() > 0 && replies[0] is Db && replies[0]->Db_0 is Affected
        && replies[0]->Db_0->Affected_0 > 0 {
        let removed = world.after(request, replies[0]);
        assert(removed == without_task_row(world, id));
        let rest = replies.drop_first();
        let ids = seq![point_id(id)];
        lemma_removing_run(VecStore::spec_delete_points(task_collection(), ids), removed, rest);
        lemma_delete_points_run(task_collection(), ids, removed, rest);
        let points = world.index[task_collection()].points;
        assert(ids[0] == point_id(id));
        assert(ids.to_set() =~= set![point_id(id)]);
        assert(points.remove_keys(ids.to_set()) =~= points.remove(point_id(id)));
    }
}

/// Nothing is mirrored for a task that does not exist. Where the relational
/// store holds no row for the id, a complete run of `update` consists of the
/// one request to the relational store, fails, and changes nothing: the
/// embedder and the vector index are not asked. The failure is
/// entity-not-found unless the relational store itself failed.
pub proof fn lemma_missing_task_is_not_updated(
    mm: ModelManagerView,
    id: i64,
    story: Seq<char>,
    world: World,
    replies: Seq<ReplyView>,
)
    requires
        !has_task_row(world, id),
        run::<UpdateTask>(TaskBmc::spec_update(mm, id, story), world, replies) is Some,
    ensures
        replies.len() == 1,
        replies[0] is Db,
        ({
            let ending = run::<UpdateTask>(TaskBmc::spec_update(mm, id, story), world, replies)->0;
            &&& ending.world == world
            &&& ending.result is Err
            &&& !(replies[0]->Db_0 is Failed) ==> ending.result == Err::<(), ErrorView>(
                task_not_found(id),
            )
        }),
{
    reveal_with_fuel(run, 2);
}

/// Nothing is removed for a task that does not exist. Where the relational
/// store holds no row for the id, a complete run of `delete` consists of the
/// one request to the relational store, fails, and changes nothing: the
/// vector index is not asked. The failure is entity-not-found unless the
/// relational store itself failed.
pub proof fn lemma_missing_task_is_not_deleted(id: i64, world: World, replies: Seq<ReplyView>)
    requires
        !has_task_row(world, id),
        run::<DeleteTask>(TaskBmc::spec_delete(id), world, replies) is Some,
    ensures
        replies.len() == 1,
        replies[0] is Db,
        ({
            let ending = run::<DeleteTask>(TaskBmc::spec_delete(id), world, replies)->0;
            &&& ending.world == world
            &&& ending.result is Err
            &&& !(replies[0]->Db_0 is Failed) ==> ending.result == Err::<(), ErrorView>(
                task_not_found(id),
            )
        }),
{
    reveal_with_fuel(run, 2);
}

/// A task that was created can be read. After a run of `create` that
/// succeeded with id `id`, the point of `id` holds the vector that the
/// embedder returned for the story, and a complete run of `read` for `id`
/// returns that id with that story, unless the query itself fails.
pub proof fn lemma_created_task_is_read(
    mm: ModelManagerView,
    story: Seq<char>,
    world: World,
    creating: Seq<ReplyView>,
    reading: Seq<ReplyView>,
)
    requires
        run::<CreateTask>(TaskBmc::spec_create(mm, story), world, creating) matches Some(made)
            && made.result matches Ok(id) && run::<ReadTask>(
            TaskBmc::spec_read(id),
            made.world,
            reading,
        ) is Some,
    ensures
        ({
            let made = run::<CreateTask>(TaskBmc::spec_create(mm, story), world, creating)->0;
            let id = made.result->Ok_0;
            let read = run::<ReadTask>(TaskBmc::spec_read(id), made.world, reading)->0;
            &&& has_task_point(made.world, id)
            &&& made.world.index[task_collection()].points[point_id(id)] == embedded(
                creating.drop_first(),
            )
            &&& match read.result {
                Ok(task) => task == TaskView { id, story },
                Err(error) => error is Sqlx,
            }
        }),
{
    let made = run::<CreateTask>(TaskBmc::spec_create(mm, story), world, creating)->0;
    let id = made.result->Ok_0;
    lemma_create_run(mm, story, world, creating);
    lemma_read_run(id, made.world, reading);
}

/// A task that was updated reads as updated. After a run of `update` that
/// succeeded, the point of the id holds the vector that the embedder
/// returned for the new story, and a complete run of `read` for the id
/// returns the new story, unless the query itself fails.
pub proof fn lemma_updated_task_is_read(
    mm: ModelManagerView,
    id: i64,
    story: Seq<char>,
    world: World,
    updating: Seq<ReplyView>,
    reading: Seq<ReplyView>,
)
    requires
        run::<UpdateTask>(TaskBmc::spec_update(mm, id, story), world, updating) matches Some(
            changed,
        ) && changed.result is Ok && run::<ReadTask>(
            TaskBmc::spec_read(id),
            changed.world,
            reading,
        ) is Some,
    ensures
        ({
            let changed = run::<UpdateTask>(
                TaskBmc::spec_update(mm, id, story),
                world,
                updating,
            )->0;
            let read = run::<ReadTask>(TaskBmc::spec_read(id), changed.world, reading)->0;
            &&& has_task_point(changed.world, id)
            &&& changed.world.index[task_collection()].points[point_id(id)] == embedded(
                updating.drop_first(),
            )
            &&& match read.result {
                Ok(task) => task == TaskView { id, story },
                Err(error) => error is Sqlx,
            }
        }),
{
    let changed = run::<UpdateTask>(TaskBmc::spec_update(mm, id, story), world, updating)->0;
    lemma_update_run(mm, id, story, world, updating);
    lemma_read_run(id, changed.world, reading);
}

/// A task that was deleted is gone from both stores. After a run of `delete`
/// that succeeded, the vector index holds no point for the id, and a
/// complete run of `read` for the id fails: with entity-not-found, unless
/// the query itself fails.
pub proof fn lemma_deleted_task_is_gone(
    id: i64,
    world: World,
    deleting: Seq<ReplyView>,
    reading: Seq<ReplyView>,
)
    requires
        run::<DeleteTask>(TaskBmc::spec_delete(id), world, deleting) matches Some(removed)
            && removed.result is Ok && run::<ReadTask>(
            TaskBmc::spec_read(id),
            removed.world,
            reading,
        ) is Some,
    ensures
        ({
            let removed = run::<DeleteTask>(TaskBmc::spec_delete(id), world, deleting)->0;
            let read = run::<ReadTask>(TaskBmc::spec_read(id), removed.world, reading)->0;
            &&& !has_task_point(removed.world, id)
            &&& !has_task_row(removed.world, id)
            &&& read.result matches Err(error)
            &&& error == task_not_found(id) || error is Sqlx
        }),
{
    let removed = run::<DeleteTask>(TaskBmc::spec_delete(id), world, deleting)->0;
    lemma_delete_run(id, world, deleting);
    lemma_read_run(id, removed.world, reading);
}

/// The relational store leads and the vector index follows, at every moment
/// of a creation. However far a run of `create` has come, and so wherever
/// it is abandoned, the world is one of three: untouched; with the new row
/// and nothing else; with the new row and its point.
pub proof fn lemma_create_writes_the_row_first(
    mm: ModelManagerView,
    story: Seq<char>,
    world: World,
    replies: Seq<ReplyView>,
)
    requires
        reached::<CreateTask>(TaskBmc::spec_create(mm, story), world, replies) is Some,
    ensures
        ({
            let now = reached::<CreateTask>(TaskBmc::spec_create(mm, story), world, replies)->0;
            ||| now == world
            ||| {
                &&& replies[0] matches ReplyView::Db(DbReplyView::Inserted(id))
                &&& !has_task_row(world, id)
                &&& {
                    ||| now == with_task_row(world, id, story)
                    ||| now == with_task_point(
                        with_task_row(world, id, story),
                        id,
                        embedded(replies.drop_first()),
                    )
                }
            }
        }),
{
    reveal_with_fuel(reached, 2);
    let start = TaskBmc::spec_create(mm, story);
    if replies.len() > 0 && replies[0] is Db && replies[0]->Db_0 is Inserted {
        let id = replies[0]->Db_0->Inserted_0;
        let inserted = world.after(start->Call_1, replies[0]);
        assert(inserted == with_task_row(world, id, story));
        let rest = replies.drop_first();
        lemma_created_reached(id, Mirror::spec_start(mm, id, story), inserted, rest);
        lemma_mirror_reached(mm, id, story, inserted, rest);
    }
}

/// The relational store leads and the vector index follows, at every moment
/// of an update. However far a run of `update` has come, the world is one
/// of three: untouched; with the new story in the row and nothing else;
/// with the new story in the row and its vector in the point.
pub proof fn lemma_update_writes_the_row_first(
    mm: ModelManagerView,
    id: i64,
    story: Seq<char>,
    world: World,
    replies: Seq<ReplyView>,
)
    requires
        reached::<UpdateTask>(TaskBmc::spec_update(mm, id, story), world, replies) is Some,
    ensures
        ({
            let now = reached::<UpdateTask>(TaskBmc::spec_update(mm, id, story), world, replies)->0;
            ||| now == world
            ||| {
                &&& has_task_row(world, id)
                &&& {
                    ||| now == with_task_row(world, id, story)
                    ||| now == with_task_point(
                        with_task_row(world, id, story),
                        id,
                        embedded(replies.drop_first()),
                    )
                }
            }
        }),
{
    reveal_with_fuel(reached, 2);
    let start = TaskBmc::spec_update(mm, id, story);
    if replies.len() > 0 && replies[0] is Db && replies[0]->Db_0 is Affected
        && replies[0]->Db_0->Affected_0 > 0 {
        let written = world.after(start->Call_1, replies[0]);
        assert(written == with_task_row(world, id, story));
        let rest = replies.drop_first();
        lemma_updated_reached(Mirror::spec_start(mm, id, story), written, rest);
        lemma_mirror_reached(mm, id, story, written, rest);
    }
}

/// The relational store leads and the vector index follows, at every moment
/// of a deletion. However far a run of `delete` has come, the world is one
/// of three: untouched; without the row and with the point still there;
/// without the row and without the point.
pub proof fn lemma_delete_removes_the_row_first(id: i64, world: World, replies: Seq<ReplyView>)
    requires
        reached::<DeleteTask>(TaskBmc::spec_delete(id), world, replies) is Some,
    ensures
        ({
            let now = reached::<DeleteTask>(TaskBmc::spec_delete(id), world, replies)->0;
            ||| now == world
            ||| {
                &&& has_task_row(world, id)
                &&& {
                    ||| now == without_task_row(world, id)
                    ||| now == without_task_point(without_task_row(world, id), id)
                }
            }
        }),
{
    reveal_with_fuel(reached, 4);
    let start = TaskBmc::spec_delete(id);
    if replies.len() > 1 && replies[0] is Db && replies[0]->Db_0 is Affected
        && replies[0]->Db_0->Affected_0 > 0 && replies[1] is Index && replies[1]->Index_0 is Done {
        let removed = world.after(start->Call_1, replies[0]);
        assert(removed == without_task_row(world, id));
        let ids = seq![point_id(id)];
        let points = removed.index[task_collection()].points;
        assert(ids[0] == point_id(id));
        assert(ids.to_set() =~= set![point_id(id)]);
        assert(points.remove_keys(ids.to_set()) =~= points.remove(point_id(id)));
    }
}

/// What a run of a mirroring has reached, seen as part of a creation, is
/// what the mirroring has reached.
proof fn lemma_created_reached(
    id: i64,
    step: StepView<MirrorView, (), ErrorView>,
    world: World,
    replies: Seq<ReplyView>,
)
    ensures
        reached::<CreateTask>(created(id, step), world, replies) == reached::<Mirror>(
            step,
            world,
            replies,
        ),
    decreases replies.len(),
{
    reveal_with_fuel(reached, 2);
    if let StepView::Call(pending, request) = step {
        if replies.len() > 0 && world.admits(request, replies[0]) {
            lemma_created_reached(
                id,
                Mirror::next(pending, replies[0]),
                world.after(request, replies[0]),
                replies.drop_first(),
            );
        }
    }
}

/// What a run of a mirroring has reached, seen as part of an update, is
/// what the mirroring has reached.
proof fn lemma_updated_reached(
    step: StepView<MirrorView, (), ErrorView>,
    world: World,
    replies: Seq<ReplyView>,
)
    ensures
        reached::<UpdateTask>(updated(step), world, replies) == reached::<Mirror>(
            step,
            world,
            replies,
        ),
    decreases replies.len(),
{
    reveal_with_fuel(reached, 2);
    if let StepView::Call(pending, request) = step {
        if replies.len() > 0 && world.admits(request, replies[0]) {
            lemma_updated_reached(
                Mirror::next(pending, replies[0]),
                world.after(request, replies[0]),
                replies.drop_first(),
            );
        }
    }
}

/// However far a mirroring has come, the world is as it was or differs by
/// the point of the row, which holds the vector that the embedder returned.
proof fn lemma_mirror_reached(
    mm: ModelManagerView,
    id: i64,
    story: Seq<char>,
    world: World,
    replies: Seq<ReplyView>,
)
    requires
        reached::<Mirror>(Mirror::spec_start(mm, id, story), world, replies) is Some,
    ensures
        ({
            let now = reached::<Mirror>(Mirror::spec_start(mm, id, story), world, replies)->0;
            now == world || now == with_task_point(world, id, embedded(replies))
        }),
{
    reveal_with_fuel(reached, 4);
    if replies.len() > 1 && replies[0] is Embed && replies[0]->Embed_0 is Data
        && replies[1] is Index && replies[1]->Index_0 is Done {
        let vector = embedded(replies);
        let items = seq![(id, vector)];
        let points = world.index[task_collection()].points;
        assert(points_of(items) =~= seq![points_of(items)[0]]);
        reveal_with_fuel(Seq::fold_left, 2);
        assert(points_of(items).drop_last() =~= Seq::empty());
        assert(upserted(points, points_of(items)) == points.insert(point_id(id), vector));
    }
}

/// The bond between the two stores: every point of the collection of tasks
/// is the point of a task that has a row.
pub open spec fn points_have_rows(world: World) -> bool {
    forall|point: u64|
        world.index.contains_key(task_collection())
            && #[trigger] world.index[task_collection()].points.contains_key(point)
            ==> has_task_row(world, entity_id(point))
}

/// `create` keeps the bond, however it ends.
pub proof fn lemma_create_keeps_the_bond(
    mm: ModelManagerView,
    story: Seq<char>,
    world: World,
    replies: Seq<ReplyView>,
)
    requires
        points_have_rows(world),
        run::<CreateTask>(TaskBmc::spec_create(mm, story), world, replies) is Some,
    ensures
        points_have_rows(run::<CreateTask>(TaskBmc::spec_create(mm, story), world, replies)->0.world),
{
    let ending = run::<CreateTask>(TaskBmc::spec_create(mm, story), world, replies)->0;
    lemma_create_run(mm, story, world, replies);
    let id = if replies.len() > 0 {
        replies[0]->Db_0->Inserted_0
    } else {
        0
    };
    lemma_bond_survives_a_write(world, ending.world, id, embedded(replies.drop_first()));
}

/// `update` keeps the bond, however it ends.
pub proof fn lemma_update_keeps_the_bond(
    mm: ModelManagerView,
    id: i64,
    story: Seq<char>,
    world: World,
    replies: Seq<ReplyView>,
)
    requires
        points_have_rows(world),
        run::<UpdateTask>(TaskBmc::spec_update(mm, id, story), world, replies) is Some,
    ensures
        points_have_rows(
            run::<UpdateTask>(TaskBmc::spec_update(mm, id, story), world, replies)->0.world,
        ),
{
    let ending = run::<UpdateTask>(TaskBmc::spec_update(mm, id, story), world, replies)->0;
    lemma_update_run(mm, id, story, world, replies);
    lemma_bond_survives_a_write(world, ending.world, id, embedded(replies.drop_first()));
}

/// The bond survives every change that adds rows, rewrites rows, and adds or
/// rewrites only the point of a task that has a row afterwards.
proof fn lemma_bond_survives_a_write(before: World, after: World, id: i64, vector: Seq<u32>)
    requires
        points_have_rows(before),
        forall|id: i64| has_task_row(before, id) ==> has_task_row(after, id),
        after.index == before.index || (has_task_row(after, id) && before.index.contains_key(
            task_collection(),
        ) && after.index == with_task_point(before, id, vector).index),
    ensures
        points_have_rows(after),
{
    lemma_ids_round_trip(id, 0);
    assert forall|point: u64|
        after.index.contains_key(task_collection())
            && #[trigger] after.index[task_collection()].points.contains_key(
            point,
        ) implies has_task_row(after, entity_id(point)) by {
        if after.index != before.index && point == point_id(id) {
        } else {
            assert(before.index[task_collection()].points.contains_key(point));
        }
    }
}

/// `delete` keeps the bond when it succeeds and when it fails before the
/// row is removed. Where the removal of the point fails after the row is
/// gone, the point of that one task is left without a row, and no other.
pub proof fn lemma_delete_keeps_the_bond(id: i64, world: World, replies: Seq<ReplyView>)
    requires
        points_have_rows(world),
        run::<DeleteTask>(TaskBmc::spec_delete(id), world, replies) is Some,
    ensures
        ({
            let ending = run::<DeleteTask>(TaskBmc::spec_delete(id), world, replies)->0;
            &&& !(ending.result matches Err(ErrorView::Store(_))) ==> points_have_rows(
                ending.world,
            )
            &&& forall|point: u64|
                point != point_id(id) && ending.world.index.contains_key(task_collection())
                    && #[trigger] ending.world.index[task_collection()].points.contains_key(point)
                    ==> has_task_row(ending.world, entity_id(point))
        }),
{
    let ending = run::<DeleteTask>(TaskBmc::spec_delete(id), world, replies)->0;
    lemma_delete_run(id, world, replies);
    assert forall|point: u64|
        point != point_id(id) && ending.world.index.contains_key(task_collection())
            && #[trigger] ending.world.index[task_collection()].points.contains_key(
            point,
        ) implies has_task_row(ending.world, entity_id(point)) by {
        assert(world.index[task_collection()].points.contains_key(point));
        lemma_ids_round_trip(id, point);
    }
}

} // verus!
