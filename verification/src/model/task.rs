//! The coordinator of the entity `Task`: every change goes to the relational
//! store first and is then mirrored into the vector index.
//!
//! The relational store is the source of truth. A task's row id is the id of
//! its point, and the point's vector is the embedding of the task's story.
//! Nothing is rolled back: where the vector index fails after the row was
//! written, the row stays and the failure is reported.

use crate::ctx::Ctx;
use crate::model::embedder::EmbedOne;
use crate::model::error::{Error, ErrorView};
use crate::model::op::{
    unexpected_reply, unexpected_reply_text, Operation, Reply, ReplyView, Request, RequestView,
    Step, StepView,
};
use crate::model::store::db_store::{DbReply, DbReplyView, DbRequest, DbRequestView};
use crate::model::store::points::{items_view, point_id, DeletePoints, UpdatePoints};
use crate::model::store::vec_store::{VecStore, VecStoreView};
use crate::model::store::vec_wire::{lemma_embedding_deep_view, Embedding};
use crate::model::{ModelManager, ModelManagerView};
use vstd::prelude::*;
use vstd::string::StringExecFns;

verus! {

/// What binds an entity type to its two stores.
pub trait VsBmc {
    /// The collection of the vector index that holds the entity's points.
    const COLLECTION_NAME: &'static str;

    /// The table of the relational store that holds the entity's rows.
    const DB_TABLE_NAME: &'static str;
}

/// The coordinator of tasks.
pub struct TaskBmc;

impl VsBmc for TaskBmc {
    const COLLECTION_NAME: &'static str = "task";

    const DB_TABLE_NAME: &'static str = "story";
}

/// A task as it is stored.
#[derive(Debug, Clone, PartialEq, Eq)]
pub struct Task {
    pub id: i64,
    pub story: String,
}

/// What is given to create a task.
#[derive(Debug, Clone, PartialEq, Eq)]
pub struct TaskForCreate {
    pub story: String,
}

/// What is given to update a task.
#[derive(Debug, Clone, PartialEq, Eq)]
pub struct TaskForUpdate {
    pub id: i64,
    pub story: String,
}

/// `Task` as plain mathematical values.
pub struct TaskView {
    pub id: i64,
    pub story: Seq<char>,
}

impl View for Task {
    type V = TaskView;

    open spec fn view(&self) -> TaskView {
        TaskView { id: self.id, story: self.story@ }
    }
}

impl DeepView for Task {
    type V = TaskView;

    open spec fn deep_view(&self) -> TaskView {
        self@
    }
}

/// The name of the collection of tasks.
pub open spec fn task_collection() -> Seq<char> {
    TaskBmc::COLLECTION_NAME@
}

/// The name of the table of tasks.
pub open spec fn task_table() -> Seq<char> {
    TaskBmc::DB_TABLE_NAME@
}

/// Where the mirroring of a row into the vector index stands: first the
/// story is embedded, then the point is written.
#[derive(Debug, Clone)]
pub enum Mirror {
    /// Waiting for the embedding of the story of row `id`.
    Embedding { store: VecStore, id: i64, pending: EmbedOne },
    /// Waiting for the index to acknowledge the point.
    Upserting(UpdatePoints),
}

/// `Mirror` as plain mathematical values.
pub enum MirrorView {
    Embedding { store: VecStoreView, id: i64, pending: EmbedOne },
    Upserting(UpdatePoints),
}

impl View for Mirror {
    type V = MirrorView;

    open spec fn view(&self) -> MirrorView {
        match self {
            Mirror::Embedding { store, id, pending } => MirrorView::Embedding {
                store: store@,
                id: *id,
                pending: *pending,
            },
            Mirror::Upserting(pending) => MirrorView::Upserting(*pending),
        }
    }
}

/// A step of the embedding, seen as a step of the mirroring: the vector that
/// comes back is written as the point of row `id`.
pub open spec fn embedding(
    store: VecStoreView,
    id: i64,
    step: StepView<EmbedOne, Seq<u32>, crate::model::embedder::error::ErrorView>,
) -> StepView<MirrorView, (), ErrorView> {
    match step {
        StepView::Call(pending, request) => StepView::Call(
            MirrorView::Embedding { store, id, pending },
            request,
        ),
        StepView::Done(Ok(vector)) => upserting(
            VecStore::spec_update_points(store, task_collection(), seq![(id, vector)]),
        ),
        StepView::Done(Err(error)) => StepView::Done(Err(ErrorView::Embedder(error))),
    }
}

/// A step of the write, seen as a step of the mirroring.
pub open spec fn upserting(
    step: StepView<UpdatePoints, (), crate::model::store::error::ErrorView>,
) -> StepView<MirrorView, (), ErrorView> {
    match step {
        StepView::Call(pending, request) => StepView::Call(MirrorView::Upserting(pending), request),
        StepView::Done(Ok(())) => StepView::Done(Ok(())),
        StepView::Done(Err(error)) => StepView::Done(Err(ErrorView::Store(error))),
    }
}

impl Mirror {
    /// Starts the mirroring of row `id`, whose story is `story`.
    pub fn start(mm: &ModelManager, id: i64, story: &str) -> (step: Step<Mirror, (), Error>)
        ensures
            step@ == Self::spec_start(mm@, id, story@),
    {
        Self::embedding(mm.vs.duplicate(), id, mm.embedder.embed(story))
    }

    /// The first step of a mirroring: the embedding of the story.
    pub open spec fn spec_start(mm: ModelManagerView, id: i64, story: Seq<char>) -> StepView<
        MirrorView,
        (),
        ErrorView,
    > {
        embedding(mm.vs, id, crate::model::embedder::OpenAIEmbedder::spec_embed(mm.embedder, story))
    }

    fn embedding(
        store: VecStore,
        id: i64,
        step: Step<EmbedOne, Embedding, crate::model::embedder::Error>,
    ) -> (next: Step<Mirror, (), Error>)
        ensures
            next@ == embedding(store@, id, step@),
    {
        match step {
            Step::Call(pending, request) => Step::Call(
                Mirror::Embedding { store, id, pending },
                request,
            ),
            Step::Done(Ok(vector)) => {
                proof {
                    lemma_embedding_deep_view(vector);
                }
                let mut items: Vec<(i64, Embedding)> = Vec::new();
                items.push((id, vector));
                assert(items_view(items@) =~= seq![(id, vector@)]);
                Self::upserting(store.update_points(TaskBmc::COLLECTION_NAME, items))
            },
            Step::Done(Err(error)) => Step::Done(Err(Error::Embedder(error))),
        }
    }

    fn upserting(step: Step<UpdatePoints, (), crate::model::store::Error>) -> (next: Step<
        Mirror,
        (),
        Error,
    >)
        ensures
            next@ == upserting(step@),
    {
        match step {
            Step::Call(pending, request) => Step::Call(Mirror::Upserting(pending), request),
            Step::Done(Ok(())) => Step::Done(Ok(())),
            Step::Done(Err(error)) => Step::Done(Err(Error::Store(error))),
        }
    }
}

impl Operation for Mirror {
    type Output = ();

    type Error = Error;

    /// The story is embedded as `OpenAIEmbedder::embed` does it; its vector is
    /// written under the row's id as `VecStore::update_points` does it. A
    /// failure of the embedder or of the store ends the mirroring with that
    /// failure.
    open spec fn next(state: MirrorView, reply: ReplyView) -> StepView<MirrorView, (), ErrorView> {
        match state {
            MirrorView::Embedding { store, id, pending } => embedding(
                store,
                id,
                EmbedOne::next(pending, reply),
            ),
            MirrorView::Upserting(pending) => upserting(UpdatePoints::next(pending, reply)),
        }
    }

    fn resume(self, reply: Reply) -> (step: Step<Self, (), Error>) {
        match self {
            Mirror::Embedding { store, id, pending } => Self::embedding(
                store,
                id,
                pending.resume(reply),
            ),
            Mirror::Upserting(pending) => Self::upserting(pending.resume(reply)),
        }
    }
}

/// Where the creation of a task stands.
#[derive(Debug, Clone)]
pub enum CreateTask {
    /// Waiting for the id of the new row.
    Inserting { mm: ModelManager, story: String },
    /// The row has id `id` and is being mirrored.
    Mirroring { id: i64, pending: Mirror },
}

/// `CreateTask` as plain mathematical values.
pub enum CreateTaskView {
    Inserting { mm: ModelManagerView, story: Seq<char> },
    Mirroring { id: i64, pending: MirrorView },
}

impl View for CreateTask {
    type V = CreateTaskView;

    open spec fn view(&self) -> CreateTaskView {
        match self {
            CreateTask::Inserting { mm, story } => CreateTaskView::Inserting {
                mm: mm@,
                story: story@,
            },
            CreateTask::Mirroring { id, pending } => CreateTaskView::Mirroring {
                id: *id,
                pending: pending@,
            },
        }
    }
}

/// A step of the mirroring, seen as a step of the creation of task `id`,
/// which returns the id once the point is written.
pub open spec fn created(id: i64, step: StepView<MirrorView, (), ErrorView>) -> StepView<
    CreateTaskView,
    i64,
    ErrorView,
> {
    match step {
        StepView::Call(pending, request) => StepView::Call(
            CreateTaskView::Mirroring { id, pending },
            request,
        ),
        StepView::Done(Ok(())) => StepView::Done(Ok(id)),
        StepView::Done(Err(error)) => StepView::Done(Err(error)),
    }
}

impl CreateTask {
    fn created(id: i64, step: Step<Mirror, (), Error>) -> (next: Step<CreateTask, i64, Error>)
        ensures
            next@ == created(id, step@),
    {
        match step {
            Step::Call(pending, request) => Step::Call(
                CreateTask::Mirroring { id, pending },
                request,
            ),
            Step::Done(Ok(())) => Step::Done(Ok(id)),
            Step::Done(Err(error)) => Step::Done(Err(error)),
        }
    }
}

impl Operation for CreateTask {
    type Output = i64;

    type Error = Error;

    /// Once the row is inserted it is mirrored under the id that the store
    /// gave it, and that id is the result. An insert that failed ends the
    /// creation before anything else is asked for; a mirroring that failed
    /// ends it with the row in place.
    open spec fn next(state: CreateTaskView, reply: ReplyView) -> StepView<
        CreateTaskView,
        i64,
        ErrorView,
    > {
        match state {
            CreateTaskView::Inserting { mm, story } => match reply {
                ReplyView::Db(DbReplyView::Inserted(id)) => created(
                    id,
                    Mirror::spec_start(mm, id, story),
                ),
                ReplyView::Db(DbReplyView::Failed(text)) => StepView::Done(
                    Err(ErrorView::Sqlx(text)),
                ),
                _ => StepView::Done(Err(ErrorView::Sqlx(unexpected_reply()))),
            },
            CreateTaskView::Mirroring { id, pending } => created(id, Mirror::next(pending, reply)),
        }
    }

    fn resume(self, reply: Reply) -> (step: Step<Self, i64, Error>) {
        match self {
            CreateTask::Inserting { mm, story } => match reply {
                Reply::Db(DbReply::Inserted(id)) => Self::created(
                    id,
                    Mirror::start(&mm, id, story.as_str()),
                ),
                Reply::Db(DbReply::Failed(text)) => Step::Done(Err(Error::Sqlx(text))),
                _ => Step::Done(Err(Error::Sqlx(unexpected_reply_text()))),
            },
            CreateTask::Mirroring { id, pending } => Self::created(id, pending.resume(reply)),
        }
    }
}

/// Where the update of a task stands.
#[derive(Debug, Clone)]
pub enum UpdateTask {
    /// Waiting for the number of rows that the update touched.
    Updating { mm: ModelManager, id: i64, story: String },
    /// The row is updated and is being mirrored.
    Mirroring(Mirror),
}

/// `UpdateTask` as plain mathematical values.
pub enum UpdateTaskView {
    Updating { mm: ModelManagerView, id: i64, story: Seq<char> },
    Mirroring(MirrorView),
}

impl View for UpdateTask {
    type V = UpdateTaskView;

    open spec fn view(&self) -> UpdateTaskView {
        match self {
            UpdateTask::Updating { mm, id, story } => UpdateTaskView::Updating {
                mm: mm@,
                id: *id,
                story: story@,
            },
            UpdateTask::Mirroring(pending) => UpdateTaskView::Mirroring(pending@),
        }
    }
}

/// A step of the mirroring, seen as a step of the update.
pub open spec fn updated(step: StepView<MirrorView, (), ErrorView>) -> StepView<
    UpdateTaskView,
    (),
    ErrorView,
> {
    match step {
        StepView::Call(pending, request) => StepView::Call(
            UpdateTaskView::Mirroring(pending),
            request,
        ),
        StepView::Done(result) => StepView::Done(result),
    }
}

/// The error for a task that the relational store does not hold.
pub open spec fn task_not_found(id: i64) -> ErrorView {
    ErrorView::EntityNotFound { entity: task_collection(), id }
}

impl UpdateTask {
    fn updated(step: Step<Mirror, (), Error>) -> (next: Step<UpdateTask, (), Error>)
        ensures
            next@ == updated(step@),
    {
        match step {
            Step::Call(pending, request) => Step::Call(UpdateTask::Mirroring(pending), request),
            Step::Done(result) => Step::Done(result),
        }
    }
}

impl Operation for UpdateTask {
    type Output = ();

    type Error = Error;

    /// An update that touched no row ends with entity-not-found and nothing
    /// is asked of the embedder or of the vector index. One that touched a
    /// row is followed by the mirroring of the new story. An update that
    /// failed ends the operation with the store's failure.
    open spec fn next(state: UpdateTaskView, reply: ReplyView) -> StepView<
        UpdateTaskView,
        (),
        ErrorView,
    > {
        match state {
            UpdateTaskView::Updating { mm, id, story } => match reply {
                ReplyView::Db(DbReplyView::Affected(count)) => if count == 0 {
                    StepView::Done(Err(task_not_found(id)))
                } else {
                    updated(Mirror::spec_start(mm, id, story))
                },
                ReplyView::Db(DbReplyView::Failed(text)) => StepView::Done(
                    Err(ErrorView::Sqlx(text)),
                ),
                _ => StepView::Done(Err(ErrorView::Sqlx(unexpected_reply()))),
            },
            UpdateTaskView::Mirroring(pending) => updated(Mirror::next(pending, reply)),
        }
    }

    fn resume(self, reply: Reply) -> (step: Step<Self, (), Error>) {
        match self {
            UpdateTask::Updating { mm, id, story } => match reply {
                Reply::Db(DbReply::Affected(count)) => if count == 0 {
                    Step::Done(Err(Error::EntityNotFound { entity: TaskBmc::COLLECTION_NAME, id }))
                } else {
                    Self::updated(Mirror::start(&mm, id, story.as_str()))
                },
                Reply::Db(DbReply::Failed(text)) => Step::Done(Err(Error::Sqlx(text))),
                _ => Step::Done(Err(Error::Sqlx(unexpected_reply_text()))),
            },
            UpdateTask::Mirroring(pending) => Self::updated(pending.resume(reply)),
        }
    }
}

/// Waiting for the row of a task.
#[derive(Debug, Clone, Copy, PartialEq, Eq, Structural)]
pub struct ReadTask {
    pub id: i64,
}

impl View for ReadTask {
    type V = ReadTask;

    open spec fn view(&self) -> ReadTask {
        *self
    }
}

impl Operation for ReadTask {
    type Output = Task;

    type Error = Error;

    /// The task of the row that came back. No row is entity-not-found; a
    /// query that failed is the store's failure.
    open spec fn next(state: ReadTask, reply: ReplyView) -> StepView<ReadTask, TaskView, ErrorView> {
        match reply {
            ReplyView::Db(DbReplyView::Fetched(row)) => StepView::Done(
                Ok(TaskView { id: row.id, story: row.story }),
            ),
            ReplyView::Db(DbReplyView::NoRow) => StepView::Done(Err(task_not_found(state.id))),
            ReplyView::Db(DbReplyView::Failed(text)) => StepView::Done(Err(ErrorView::Sqlx(text))),
            _ => StepView::Done(Err(ErrorView::Sqlx(unexpected_reply()))),
        }
    }

    fn resume(self, reply: Reply) -> (step: Step<Self, Task, Error>) {
        match reply {
            Reply::Db(DbReply::Fetched(row)) => Step::Done(
                Ok(Task { id: row.id, story: row.story }),
            ),
            Reply::Db(DbReply::NoRow) => Step::Done(
                Err(Error::EntityNotFound { entity: TaskBmc::COLLECTION_NAME, id: self.id }),
            ),
            Reply::Db(DbReply::Failed(text)) => Step::Done(Err(Error::Sqlx(text))),
            _ => Step::Done(Err(Error::Sqlx(unexpected_reply_text()))),
        }
    }
}

/// Where the deletion of a task stands.
#[derive(Debug, Clone, Copy, PartialEq, Eq, Structural)]
pub enum DeleteTask {
    /// Waiting for the number of rows that the deletion touched.
    Deleting { id: i64 },
    /// The row is gone and its point is being removed.
    Removing(DeletePoints),
}

impl View for DeleteTask {
    type V = DeleteTask;

    open spec fn view(&self) -> DeleteTask {
        *self
    }
}

/// A step of the removal of the point, seen as a step of the deletion.
pub open spec fn removing(
    step: StepView<DeletePoints, (), crate::model::store::error::ErrorView>,
) -> StepView<DeleteTask, (), ErrorView> {
    match step {
        StepView::Call(pending, request) => StepView::Call(DeleteTask::Removing(pending), request),
        StepView::Done(Ok(())) => StepView::Done(Ok(())),
        StepView::Done(Err(error)) => StepView::Done(Err(ErrorView::Store(error))),
    }
}

impl DeleteTask {
    fn removing(step: Step<DeletePoints, (), crate::model::store::Error>) -> (next: Step<
        DeleteTask,
        (),
        Error,
    >)
        ensures
            next@ == removing(step@),
    {
        match step {
            Step::Call(pending, request) => Step::Call(DeleteTask::Removing(pending), request),
            Step::Done(Ok(())) => Step::Done(Ok(())),
            Step::Done(Err(error)) => Step::Done(Err(Error::Store(error))),
        }
    }
}

impl Operation for DeleteTask {
    type Output = ();

    type Error = Error;

    /// A deletion that touched no row ends with entity-not-found and nothing
    /// is asked of the vector index. One that touched a row is followed by
    /// the removal of the point of that id, as `VecStore::delete_points` does
    /// it; if that fails the row is gone all the same.
    open spec fn next(state: DeleteTask, reply: ReplyView) -> StepView<DeleteTask, (), ErrorView> {
        match state {
            DeleteTask::Deleting { id } => match reply {
                ReplyView::Db(DbReplyView::Affected(count)) => if count == 0 {
                    StepView::Done(Err(task_not_found(id)))
                } else {
                    removing(VecStore::spec_delete_points(task_collection(), seq![point_id(id)]))
                },
                ReplyView::Db(DbReplyView::Failed(text)) => StepView::Done(
                    Err(ErrorView::Sqlx(text)),
                ),
                _ => StepView::Done(Err(ErrorView::Sqlx(unexpected_reply()))),
            },
            DeleteTask::Removing(pending) => removing(DeletePoints::next(pending, reply)),
        }
    }

    fn resume(self, reply: Reply) -> (step: Step<Self, (), Error>) {
        match self {
            DeleteTask::Deleting { id } => match reply {
                Reply::Db(DbReply::Affected(count)) => if count == 0 {
                    Step::Done(Err(Error::EntityNotFound { entity: TaskBmc::COLLECTION_NAME, id }))
                } else {
                    let mut ids: Vec<u64> = Vec::new();
                    ids.push(#[verifier::truncate] (id as u64));
                    assert(ids@ =~= seq![point_id(id)]);
                    Self::removing(VecStore::start_deletion(TaskBmc::COLLECTION_NAME, ids))
                },
                Reply::Db(DbReply::Failed(text)) => Step::Done(Err(Error::Sqlx(text))),
                _ => Step::Done(Err(Error::Sqlx(unexpected_reply_text()))),
            },
            DeleteTask::Removing(pending) => Self::removing(pending.resume(reply)),
        }
    }
}

impl TaskBmc {
    /// Creates a task: inserts the row, embeds the story and writes the
    /// point whose id is the row's. Returns the id.
    pub fn create(_ctx: &Ctx, mm: &ModelManager, task: TaskForCreate) -> (step: Step<
        CreateTask,
        i64,
        Error,
    >)
        ensures
            step@ == Self::spec_create(mm@, task.story@),
    {
        let request = DbRequest::Insert {
            table: String::from_str(Self::DB_TABLE_NAME),
            story: task.story.clone(),
        };
        Step::Call(
            CreateTask::Inserting { mm: mm.duplicate(), story: task.story },
            Request::Db(request),
        )
    }

    /// What `create` returns, as a mathematical function of its arguments.
    pub open spec fn spec_create(mm: ModelManagerView, story: Seq<char>) -> StepView<
        CreateTaskView,
        i64,
        ErrorView,
    > {
        StepView::Call(
            CreateTaskView::Inserting { mm, story },
            RequestView::Db(DbRequestView::Insert { table: task_table(), story }),
        )
    }

    /// Updates a task: replaces the story of the row, embeds the new story
    /// and overwrites the point.
    pub fn update(_ctx: &Ctx, mm: &ModelManager, task: TaskForUpdate) -> (step: Step<
        UpdateTask,
        (),
        Error,
    >)
        ensures
            step@ == Self::spec_update(mm@, task.id, task.story@),
    {
        let request = DbRequest::Update {
            table: String::from_str(Self::DB_TABLE_NAME),
            id: task.id,
            story: task.story.clone(),
        };
        Step::Call(
            UpdateTask::Updating { mm: mm.duplicate(), id: task.id, story: task.story },
            Request::Db(request),
        )
    }

    /// What `update` returns, as a mathematical function of its arguments.
    pub open spec fn spec_update(mm: ModelManagerView, id: i64, story: Seq<char>) -> StepView<
        UpdateTaskView,
        (),
        ErrorView,
    > {
        StepView::Call(
            UpdateTaskView::Updating { mm, id, story },
            RequestView::Db(DbRequestView::Update { table: task_table(), id, story }),
        )
    }

    /// Reads a task from the relational store.
    pub fn read(_ctx: &Ctx, _mm: &ModelManager, id: i64) -> (step: Step<ReadTask, Task, Error>)
        ensures
            step@ == Self::spec_read(id),
    {
        Step::Call(
            ReadTask { id },
            Request::Db(DbRequest::Select { table: String::from_str(Self::DB_TABLE_NAME), id }),
        )
    }

    /// What `read` returns, as a mathematical function of its arguments.
    pub open spec fn spec_read(id: i64) -> StepView<ReadTask, TaskView, ErrorView> {
        StepView::Call(
            ReadTask { id },
            RequestView::Db(DbRequestView::Select { table: task_table(), id }),
        )
    }

    /// Deletes a task: removes the row, then the point.
    pub fn delete(_ctx: &Ctx, _mm: &ModelManager, id: i64) -> (step: Step<DeleteTask, (), Error>)
        ensures
            step@ == Self::spec_delete(id),
    {
        Step::Call(
            DeleteTask::Deleting { id },
            Request::Db(DbRequest::Delete { table: String::from_str(Self::DB_TABLE_NAME), id }),
        )
    }

    /// What `delete` returns, as a mathematical function of its arguments.
    pub open spec fn spec_delete(id: i64) -> StepView<DeleteTask, (), ErrorView> {
        StepView::Call(
            DeleteTask::Deleting { id },
            RequestView::Db(DbRequestView::Delete { table: task_table(), id }),
        )
    }
}

} // verus!
