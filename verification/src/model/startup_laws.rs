//! What the startup of the model layer achieves when the outside services
//! work as `crate::model::world` says.

use crate::config::ConfigView;
use crate::model::embedder::OpenAIEmbedderView;
use crate::model::error::ErrorView;
use crate::model::op::{Operation, ReplyView, StepView};
use crate::model::store::db_store::DbReplyView;
use crate::model::store::bootstrap_laws::lemma_from_config_run;
use crate::model::store::bootstrap::{Bootstrap, BootstrapView};
use crate::model::store::collections::distance_named;
use crate::model::store::vec_store::VecStoreView;
use crate::model::world::{fresh, run, World};
use crate::model::{indexing, ModelManager, ModelManagerView, Startup};
use vstd::prelude::*;

verus! {

/// A startup that succeeds is a bootstrap of the vector store manager that
/// succeeds, followed by the opening of the pool: its last reply says that
/// the pool is open, the replies before it are a complete run of the
/// bootstrap, and the result bundles the manager of that run with the
/// embedder.
proof fn lemma_indexing_run(
    db_url: Seq<char>,
    embedder: OpenAIEmbedderView,
    step: StepView<BootstrapView, VecStoreView, crate::model::store::error::ErrorView>,
    world: World,
    replies: Seq<ReplyView>,
)
    requires
        run::<Startup>(indexing(db_url, embedder, step), world, replies) matches Some(ending)
            && ending.result is Ok,
    ensures
        replies.len() > 0,
        replies.last() == ReplyView::Db(DbReplyView::Connected),
        ({
            let ending = run::<Startup>(indexing(db_url, embedder, step), world, replies)->0;
            let up = run::<Bootstrap>(step, world, replies.drop_last());
            &&& up matches Some(index_up)
            &&& index_up.world == ending.world
            &&& index_up.result matches Ok(vs)
            &&& ending.result == Ok::<ModelManagerView, ErrorView>(ModelManagerView { vs, embedder })
        }),
    decreases replies.len(),
{
    reveal_with_fuel(run, 2);
    match step {
        StepView::Call(pending, request) => {
            let rest = replies.drop_first();
            lemma_indexing_run(
                db_url,
                embedder,
                Bootstrap::next(pending, replies[0]),
                world.after(request, replies[0]),
                rest,
            );
            assert(replies.drop_last().drop_first() =~= rest.drop_last());
        },
        StepView::Done(_) => {
            assert(replies.drop_last() =~= Seq::empty());
        },
    }
}

/// What a startup that succeeds achieves. The bundle it returns holds the
/// manager of the declared collections and the embedder of the configured
/// model. In the index every declared collection exists and the first one
/// holds no point. The relational store is as it was.
///
/// The declared collections are at least one and no more than a vector
/// holds.
pub proof fn lemma_startup_run(config: ConfigView, world: World, replies: Seq<ReplyView>)
    requires
        0 < config.qdrant.collections.len() <= usize::MAX,
        run::<Startup>(ModelManager::spec_from_config(config), world, replies) matches Some(ending)
            && ending.result is Ok,
    ensures
        ({
            let ending = run::<Startup>(ModelManager::spec_from_config(config), world, replies)->0;
            let first = config.qdrant.collections[0];
            &&& ending.result == Ok::<ModelManagerView, ErrorView>(
                ModelManagerView {
                    vs: VecStoreView { collections: config.qdrant.collections },
                    embedder: OpenAIEmbedderView { model: config.model },
                },
            )
            &&& ending.world == World { index: ending.world.index, ..world }
            &&& forall|i: int|
                0 <= i < config.qdrant.collections.len() ==> ending.world.index.contains_key(
                    (#[trigger] config.qdrant.collections[i]).name,
                )
            &&& distance_named(first.distance) matches Some(distance)
            &&& ending.world.index[first.name] == fresh(first.dim, distance)
        }),
{
    let start = crate::model::store::VecStore::spec_from_config(config.qdrant);
    lemma_indexing_run(
        config.db_url,
        OpenAIEmbedderView { model: config.model },
        start,
        world,
        replies,
    );
    lemma_from_config_run(config.qdrant, world, replies.drop_last());
}

} // verus!
