//! What the operations of the embedder return when the embedding service
//! works as `crate::model::world` says.

use crate::model::embedder::{EmbedMany, EmbedOne, OpenAIEmbedder, OpenAIEmbedderView};
use crate::model::op::ReplyView;
use crate::model::world::{run, World};
use vstd::prelude::*;

verus! {

/// A complete run of `embed` changes nothing; where it succeeds it returns a
/// vector of the dimension of the embedding service.
pub proof fn lemma_embed_run(
    embedder: OpenAIEmbedderView,
    text: Seq<char>,
    world: World,
    replies: Seq<ReplyView>,
)
    requires
        run::<EmbedOne>(OpenAIEmbedder::spec_embed(embedder, text), world, replies) is Some,
    ensures
        ({
            let ending = run::<EmbedOne>(
                OpenAIEmbedder::spec_embed(embedder, text),
                world,
                replies,
            )->0;
            &&& ending.world == world
            &&& ending.result matches Ok(vector) ==> vector.len() == world.embedding_dim
        }),
{
    reveal_with_fuel(run, 2);
}

/// A complete run of `embeds` changes nothing; where it succeeds it returns
/// one vector per text, each of the dimension of the embedding service.
pub proof fn lemma_embeds_run(
    embedder: OpenAIEmbedderView,
    texts: Seq<Seq<char>>,
    world: World,
    replies: Seq<ReplyView>,
)
    requires
        run::<EmbedMany>(OpenAIEmbedder::spec_embeds(embedder, texts), world, replies) is Some,
    ensures
        ({
            let ending = run::<EmbedMany>(
                OpenAIEmbedder::spec_embeds(embedder, texts),
                world,
                replies,
            )->0;
            &&& ending.world == world
            &&& ending.result matches Ok(vectors) ==> {
                &&& vectors.len() == texts.len()
                &&& forall|i: int|
                    0 <= i < vectors.len() ==> (#[trigger] vectors[i]).len()
                        == world.embedding_dim
            }
        }),
{
    reveal_with_fuel(run, 2);
}

} // verus!
