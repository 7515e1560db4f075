//! The settings that the core is built from.
//!
//! The values arrive already parsed; reading and parsing the configuration
//! source is the caller's business.

use vstd::prelude::*;

verus! {

/// Everything the core is configured with.
#[derive(Debug, Clone)]
pub struct Config {
    pub database: Database,
    pub qdrant: Qdrant,
    pub openai_embedder: OpenAIEmbedder,
}

/// Where the relational store is reached.
#[derive(Debug, Clone)]
pub struct Database {
    pub db_url: String,
}

/// Where the vector index is reached, and the collections it must hold.
#[derive(Debug, Clone)]
pub struct Qdrant {
    pub url: String,
    pub collections: Vec<QdrantCollection>,
}

/// One collection of the vector index: its name, the length of every vector in
/// it and the name of the metric by which vectors are compared.
#[derive(Debug, Clone)]
pub struct QdrantCollection {
    pub name: String,
    pub dim: u64,
    pub distance: String,
}

/// The embedding model to ask for.
#[derive(Debug, Clone)]
pub struct OpenAIEmbedder {
    pub model: String,
}

/// A collection descriptor as plain mathematical values.
pub struct QdrantCollectionView {
    pub name: Seq<char>,
    pub dim: u64,
    pub distance: Seq<char>,
}

impl View for QdrantCollection {
    type V = QdrantCollectionView;

    open spec fn view(&self) -> QdrantCollectionView {
        QdrantCollectionView { name: self.name@, dim: self.dim, distance: self.distance@ }
    }
}

impl DeepView for QdrantCollection {
    type V = QdrantCollectionView;

    open spec fn deep_view(&self) -> QdrantCollectionView {
        self@
    }
}

/// The settings of the vector index as plain mathematical values.
pub struct QdrantView {
    pub url: Seq<char>,
    pub collections: Seq<QdrantCollectionView>,
}

impl View for Qdrant {
    type V = QdrantView;

    open spec fn view(&self) -> QdrantView {
        QdrantView { url: self.url@, collections: self.collections.deep_view() }
    }
}

/// The configuration as plain mathematical values.
pub struct ConfigView {
    pub db_url: Seq<char>,
    pub qdrant: QdrantView,
    pub model: Seq<char>,
}

impl View for Config {
    type V = ConfigView;

    open spec fn view(&self) -> ConfigView {
        ConfigView {
            db_url: self.database.db_url@,
            qdrant: self.qdrant@,
            model: self.openai_embedder.model@,
        }
    }
}

impl QdrantCollection {
    /// A copy with the same name, dimension and metric.
    pub fn duplicate(&self) -> (copy: Self)
        ensures
            copy@ == self@,
    {
        QdrantCollection {
            name: self.name.clone(),
            dim: self.dim,
            distance: self.distance.clone(),
        }
    }
}

impl Qdrant {
    /// The collection that a development bootstrap may wipe: the first one
    /// listed, if any is.
    pub fn dev_collection(&self) -> (first: Option<&QdrantCollection>)
        ensures
            self.collections@.len() == 0 <==> first is None,
            first matches Some(c) ==> *c == self.collections@[0],
    {
        if self.collections.len() == 0 {
            None
        } else {
            Some(&self.collections[0])
        }
    }
}

} // verus!
