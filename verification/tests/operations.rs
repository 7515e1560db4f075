//! The operations of the core, run against stand-ins for the three outside
//! services that are kept in memory.

use ribbit_core::config::{Config, Database, OpenAIEmbedder as EmbedderConfig, Qdrant, QdrantCollection};
use ribbit_core::ctx::Ctx;
use ribbit_core::model::embedder::{EmbedReply, Error as EmbedderError, OpenAIEmbedder};
use ribbit_core::model::error::Error as ModelError;
use ribbit_core::model::op::{Operation, Reply, Request, Step};
use ribbit_core::model::store::db_store::{DbReply, DbRequest, Row};
use ribbit_core::model::store::error::{Error as StoreError, UpdateFailure};
use ribbit_core::model::store::vec_wire::{
    Distance, IndexReply, IndexRequest, PointId, RetrievedPoint, ScoredPoint, Vectors,
};
use ribbit_core::model::store::VecStore;
use ribbit_core::model::task::{Task, TaskBmc, TaskForCreate, TaskForUpdate, VsBmc};
use ribbit_core::model::ModelManager;
use std::collections::BTreeMap;

const DIM: usize = 4;

struct Collection {
    dim: u64,
    distance: Distance,
    points: BTreeMap<u64, Vec<f32>>,
}

/// What a service that is told to fail answers.
const DOWN: &str = "service is down";

struct World {
    index: BTreeMap<String, Collection>,
    tables: BTreeMap<String, BTreeMap<i64, String>>,
    next_id: i64,
    embedding_dim: usize,
    /// The requests that were performed, oldest first.
    log: Vec<Request>,
    /// How many more requests are answered before one fails.
    fail_after: Option<usize>,
}

fn bits(vector: &[f32]) -> Vec<u32> {
    vector.iter().map(|x| x.to_bits()).collect()
}

fn floats(vector: &[u32]) -> Vec<f32> {
    vector.iter().map(|x| f32::from_bits(*x)).collect()
}

fn dot(a: &[f32], b: &[f32]) -> f32 {
    a.iter().zip(b.iter()).map(|(x, y)| x * y).sum()
}

/// The score of a point under a metric: a similarity, or for `Euclid` a
/// distance.
fn score(distance: Distance, a: &[f32], b: &[f32]) -> f32 {
    match distance {
        Distance::Cosine => dot(a, b) / (dot(a, a).sqrt() * dot(b, b).sqrt()),
        Distance::Euclid => a.iter().zip(b.iter()).map(|(x, y)| (x - y) * (x - y)).sum::<f32>().sqrt(),
        _ => dot(a, b),
    }
}

/// The stand-in for the embedding model: a vector that depends on the text.
fn embedding_of(text: &str, dim: usize) -> Vec<f32> {
    let sum: u32 = text.bytes().map(|b| b as u32).sum();
    (0..dim).map(|i| 1.0 + ((sum + 7 * i as u32) % 13) as f32).collect()
}

impl World {
    fn new() -> World {
        let mut tables = BTreeMap::new();
        tables.insert("story".to_string(), BTreeMap::new());
        World {
            index: BTreeMap::new(),
            tables,
            next_id: 1,
            embedding_dim: DIM,
            log: Vec::new(),
            fail_after: None,
        }
    }

    fn perform(&mut self, request: Request) -> Reply {
        self.log.push(request.clone());
        let fails = match self.fail_after {
            Some(0) => {
                self.fail_after = None;
                true
            },
            Some(n) => {
                self.fail_after = Some(n - 1);
                false
            },
            None => false,
        };
        match request {
            Request::Index(request) => Reply::Index(
                if fails {
                    IndexReply::Failed(DOWN.to_string())
                } else {
                    self.index(request)
                },
            ),
            Request::Db(DbRequest::Connect { .. }) => Reply::Db(
                if fails {
                    DbReply::Unreachable(DOWN.to_string())
                } else {
                    DbReply::Connected
                },
            ),
            Request::Db(request) => Reply::Db(
                if fails {
                    DbReply::Failed(DOWN.to_string())
                } else {
                    self.db(request)
                },
            ),
            Request::Embed(request) => Reply::Embed(
                if fails {
                    EmbedReply::Failed(DOWN.to_string())
                } else {
                    EmbedReply::Data(
                        request.input.iter().map(|t| bits(&embedding_of(t, self.embedding_dim))).collect(),
                    )
                },
            ),
        }
    }

    fn index(&mut self, request: IndexRequest) -> IndexReply {
        let missing = |name: &str| IndexReply::Failed(format!("collection {name} does not exist"));
        match request {
            IndexRequest::Connect { .. } => IndexReply::Done,
            IndexRequest::ListCollections => IndexReply::Collections(self.index.keys().cloned().collect()),
            IndexRequest::CreateCollection { name, dim, distance } => {
                if self.index.contains_key(&name) || dim == 0 || distance == Distance::UnknownDistance {
                    return IndexReply::Failed(format!("collection {name} cannot be created"));
                }
                self.index.insert(name, Collection { dim, distance, points: BTreeMap::new() });
                IndexReply::Done
            },
            IndexRequest::DeleteCollection { name } => match self.index.remove(&name) {
                Some(_) => IndexReply::Done,
                None => missing(&name),
            },
            IndexRequest::UpsertPoints { collection, points } => {
                let Some(held) = self.index.get_mut(&collection) else {
                    return missing(&collection);
                };
                if points.iter().any(|p| p.vector.len() as u64 != held.dim) {
                    return IndexReply::Failed("wrong vector dimension".to_string());
                }
                for point in points {
                    held.points.insert(point.id, floats(&point.vector));
                }
                IndexReply::Done
            },
            IndexRequest::GetPoints { collection, ids } => {
                let Some(held) = self.index.get(&collection) else {
                    return missing(&collection);
                };
                IndexReply::Points(
                    ids.iter()
                        .filter_map(|id| held.points.get(id).map(|v| (id, v)))
                        .map(|(id, v)| RetrievedPoint {
                            id: Some(PointId::Num(*id)),
                            vectors: Some(Vectors::Dense(bits(v))),
                        })
                        .collect(),
                )
            },
            IndexRequest::SearchPoints { collection, vector, limit } => {
                let Some(held) = self.index.get(&collection) else {
                    return missing(&collection);
                };
                if vector.len() as u64 != held.dim {
                    return IndexReply::Failed("wrong vector dimension".to_string());
                }
                let query = floats(&vector);
                let mut scored: Vec<(u64, f32)> = held
                    .points
                    .iter()
                    .map(|(id, v)| (*id, score(held.distance, &query, v)))
                    .collect();
                if held.distance == Distance::Euclid {
                    scored.sort_by(|a, b| a.1.partial_cmp(&b.1).unwrap());
                } else {
                    scored.sort_by(|a, b| b.1.partial_cmp(&a.1).unwrap());
                }
                scored.truncate(limit as usize);
                IndexReply::Hits(
                    scored
                        .into_iter()
                        .map(|(id, score)| ScoredPoint { id: Some(PointId::Num(id)), score: score.to_bits() })
                        .collect(),
                )
            },
            IndexRequest::DeletePoints { collection, ids } => {
                let Some(held) = self.index.get_mut(&collection) else {
                    return missing(&collection);
                };
                for id in ids {
                    held.points.remove(&id);
                }
                IndexReply::Done
            },
        }
    }

    fn db(&mut self, request: DbRequest) -> DbReply {
        match request {
            DbRequest::Connect { .. } => DbReply::Connected,
            DbRequest::Insert { table, story } => {
                let id = self.next_id;
                self.next_id += 1;
                self.tables.get_mut(&table).unwrap().insert(id, story);
                DbReply::Inserted(id)
            },
            DbRequest::Update { table, id, story } => {
                let rows = self.tables.get_mut(&table).unwrap();
                if rows.contains_key(&id) {
                    rows.insert(id, story);
                    DbReply::Affected(1)
                } else {
                    DbReply::Affected(0)
                }
            },
            DbRequest::Select { table, id } => match self.tables[&table].get(&id) {
                Some(story) => DbReply::Fetched(Row { id, story: story.clone() }),
                None => DbReply::NoRow,
            },
            DbRequest::Delete { table, id } => match self.tables.get_mut(&table).unwrap().remove(&id) {
                Some(_) => DbReply::Affected(1),
                None => DbReply::Affected(0),
            },
        }
    }

    /// Runs an operation to its end, performing each request it names.
    fn run<O: Operation>(&mut self, step: Step<O, O::Output, O::Error>) -> Result<O::Output, O::Error> {
        let mut step = step;
        loop {
            match step {
                Step::Done(result) => return result,
                Step::Call(state, request) => {
                    let reply = self.perform(request);
                    step = state.resume(reply);
                },
            }
        }
    }

    /// Performs the one request that the operation is waiting for.
    fn advance<O: Operation>(&mut self, step: Step<O, O::Output, O::Error>) -> Step<O, O::Output, O::Error> {
        match step {
            Step::Done(result) => Step::Done(result),
            Step::Call(state, request) => {
                let reply = self.perform(request);
                state.resume(reply)
            },
        }
    }

    fn index_requests(&self) -> usize {
        self.log.iter().filter(|r| matches!(r, Request::Index(_))).count()
    }

    fn embed_requests(&self) -> usize {
        self.log.iter().filter(|r| matches!(r, Request::Embed(_))).count()
    }

    fn points(&self, collection: &str) -> &BTreeMap<u64, Vec<f32>> {
        &self.index[collection].points
    }
}

fn collection(name: &str, dim: u64, distance: &str) -> QdrantCollection {
    QdrantCollection { name: name.to_string(), dim, distance: distance.to_string() }
}

fn qdrant() -> Qdrant {
    Qdrant {
        url: "http://localhost:6334".to_string(),
        collections: vec![collection("task", DIM as u64, "Cosine"), collection("note", 2, "Dot")],
    }
}

fn config() -> Config {
    Config {
        database: Database { db_url: "postgres://localhost/app".to_string() },
        qdrant: qdrant(),
        openai_embedder: EmbedderConfig { model: "text-embedding-ada-002".to_string() },
    }
}

/// A world with the manager brought up in it.
fn started() -> (World, VecStore) {
    let mut world = World::new();
    let vs = world.run(VecStore::from_config(&qdrant())).unwrap();
    world.log.clear();
    (world, vs)
}

/// A world with the whole model layer brought up in it.
fn started_model() -> (World, ModelManager) {
    let mut world = World::new();
    let mm = world.run(ModelManager::from_config(&config())).unwrap();
    world.log.clear();
    (world, mm)
}

#[test]
fn vec_store_test_create_ok() {
    let (mut world, vs) = started();
    let clct = qdrant().collections[0].clone();
    world.run(vs.create_collection(&clct)).unwrap();
    let names = world.run(vs.list_collections()).unwrap();
    assert!(names.contains(&clct.name));
    world.run(vs.delete_collection(&clct.name)).unwrap();
}

#[test]
fn vec_store_test_delete_ok() {
    let (mut world, vs) = started();
    let clct = qdrant().collections[0].clone();
    world.run(vs.create_collection(&clct)).unwrap();
    world.run(vs.delete_collection(&clct.name)).unwrap();
    let names = world.run(vs.list_collections()).unwrap();
    assert!(!names.contains(&clct.name));
}

#[test]
fn test_save_points_ok() {
    let (mut world, vs) = started();
    let clct = qdrant().collections[0].clone();
    world.run(vs.create_collection(&clct)).unwrap();
    let id_and_embs =
        vec![(1, bits(&vec![1.0; clct.dim as usize])), (2, bits(&vec![2.0; clct.dim as usize]))];
    world.run(vs.update_points(&clct.name, id_and_embs)).unwrap();
    let embs = world.run(vs.get_point_embeddings(&clct.name, vec![1, 2])).unwrap();
    assert_eq!(embs.len(), 2);
    world.run(vs.delete_collection(&clct.name)).unwrap();
}

#[test]
fn test_save_points_err_dim_mismatch() {
    let (mut world, vs) = started();
    let clct = qdrant().collections[0].clone();
    world.run(vs.create_collection(&clct)).unwrap();
    let id_and_embs = vec![
        (1, bits(&vec![1.0; clct.dim as usize - 1])),
        (2, bits(&vec![2.0; clct.dim as usize - 1])),
    ];
    let res = world.run(vs.update_points(&clct.name, id_and_embs));
    assert!(matches!(res, Err(StoreError::QdrantUpdateError(_))), "Expected QdrantUpdateError, got {:?}", res);
    world.run(vs.delete_collection(&clct.name)).unwrap();
}

#[test]
fn test_search_points_ok() {
    let (mut world, vs) = started();
    let clct = qdrant().collections[0].clone();
    world.run(vs.create_collection(&clct)).unwrap();
    let id_and_embs =
        vec![(1, bits(&vec![1.0; clct.dim as usize])), (2, bits(&vec![2.0; clct.dim as usize]))];
    world.run(vs.update_points(&clct.name, id_and_embs)).unwrap();
    let search_result =
        world.run(vs.seach_points(&clct.name, bits(&vec![1.0; clct.dim as usize]), 2)).unwrap();
    assert_eq!(search_result.len(), 2);
    for (_id, score) in &search_result {
        let diff = (f32::from_bits(*score) - 1.0).abs();
        assert!(diff < 0.0001);
    }
    world.run(vs.delete_collection(&clct.name)).unwrap();
}

#[test]
fn bootstrap_sends_connect_then_creates_each_collection_then_resets_the_first() {
    let mut world = World::new();
    let vs = world.run(VecStore::from_config(&qdrant())).unwrap();
    assert_eq!(
        world.log,
        vec![
            Request::Index(IndexRequest::Connect { url: "http://localhost:6334".to_string() }),
            Request::Index(IndexRequest::ListCollections),
            Request::Index(IndexRequest::CreateCollection {
                name: "task".to_string(),
                dim: 4,
                distance: Distance::Cosine,
            }),
            Request::Index(IndexRequest::ListCollections),
            Request::Index(IndexRequest::CreateCollection {
                name: "note".to_string(),
                dim: 2,
                distance: Distance::Dot,
            }),
            Request::Index(IndexRequest::DeleteCollection { name: "task".to_string() }),
            Request::Index(IndexRequest::ListCollections),
            Request::Index(IndexRequest::CreateCollection {
                name: "task".to_string(),
                dim: 4,
                distance: Distance::Cosine,
            }),
        ]
    );
    assert_eq!(vs.collections.len(), 2);
    assert_eq!(vs.collections[0].name, "task");
    assert_eq!(vs.collections[1].name, "note");
    assert_eq!(vs.declared_dim("task"), Some(4));
    assert_eq!(vs.declared_dim("note"), Some(2));
    assert_eq!(vs.declared_dim("other"), None);
}

#[test]
fn bootstrap_wipes_the_first_collection_and_keeps_the_others() {
    let mut world = World::new();
    let vs = world.run(VecStore::from_config(&qdrant())).unwrap();
    world.run(vs.update_points("task", vec![(1, bits(&[1.0, 0.0, 0.0, 0.0]))])).unwrap();
    world.run(vs.update_points("note", vec![(1, bits(&[1.0, 0.0]))])).unwrap();
    world.run(VecStore::from_config(&qdrant())).unwrap();
    assert_eq!(world.points("task").len(), 0);
    assert_eq!(world.points("note").len(), 1);
}

#[test]
fn bootstrap_reports_an_unusable_url() {
    let mut world = World::new();
    world.fail_after = Some(0);
    let res = world.run(VecStore::from_config(&qdrant()));
    assert_eq!(
        res.unwrap_err(),
        StoreError::QdrantUrlNotFound(
            "Failed to create qdrant client with error: service is down".to_string()
        )
    );
    assert_eq!(world.log.len(), 1);
}

#[test]
fn bootstrap_stops_at_the_first_failure() {
    let mut world = World::new();
    world.fail_after = Some(3);
    let res = world.run(VecStore::from_config(&qdrant()));
    assert_eq!(res.unwrap_err(), StoreError::QdrantFetchError(DOWN.to_string()));
    assert_eq!(world.log.len(), 4);
    assert!(world.index.contains_key("task"));
    assert!(!world.index.contains_key("note"));
}

#[test]
fn startup_opens_the_pool_after_the_index_is_up() {
    let mut world = World::new();
    let mm = world.run(ModelManager::from_config(&config())).unwrap();
    assert_eq!(
        world.log.last(),
        Some(&Request::Db(DbRequest::Connect { url: "postgres://localhost/app".to_string() }))
    );
    assert_eq!(world.log.len(), 9);
    assert_eq!(mm.embedder.model, "text-embedding-ada-002");
    assert_eq!(mm.vs.collections.len(), 2);
}

#[test]
fn startup_reports_a_pool_that_cannot_be_opened() {
    let mut world = World::new();
    world.fail_after = Some(8);
    let res = world.run(ModelManager::from_config(&config()));
    assert_eq!(
        res.unwrap_err(),
        ModelError::Store(StoreError::FailToCreatePool(DOWN.to_string()))
    );
}

#[test]
fn startup_wraps_a_failure_of_the_index() {
    let mut world = World::new();
    world.fail_after = Some(2);
    let res = world.run(ModelManager::from_config(&config()));
    assert_eq!(
        res.unwrap_err(),
        ModelError::Store(StoreError::QdrantCreateError(
            "Failed to create collection: service is down".to_string()
        ))
    );
}

#[test]
fn creating_a_collection_twice_leaves_one() {
    let (mut world, vs) = started();
    let clct = collection("fresh", 3, "Euclid");
    world.run(vs.create_collection(&clct)).unwrap();
    world.run(vs.update_points("fresh", vec![(5, bits(&[1.0, 2.0, 3.0]))])).unwrap();
    world.log.clear();
    world.run(vs.create_collection(&clct)).unwrap();
    assert_eq!(world.log, vec![Request::Index(IndexRequest::ListCollections)]);
    let names = world.run(vs.list_collections()).unwrap();
    assert_eq!(names.iter().filter(|n| *n == "fresh").count(), 1);
    assert_eq!(world.points("fresh").len(), 1);
    assert_eq!(world.index["fresh"].dim, 3);
    assert_eq!(world.index["fresh"].distance, Distance::Euclid);
}

#[test]
fn creating_keeps_a_collection_of_that_name_even_with_another_shape() {
    let (mut world, vs) = started();
    world.run(vs.create_collection(&collection("task", 99, "no such metric"))).unwrap();
    assert_eq!(world.index["task"].dim, 4);
}

#[test]
fn each_metric_name_of_the_client_is_sent_as_its_metric() {
    for (name, distance) in [("Cosine", Distance::Cosine), ("Euclid", Distance::Euclid), ("Dot", Distance::Dot)] {
        let (mut world, vs) = started();
        world.run(vs.create_collection(&collection("fresh", 3, name))).unwrap();
        assert_eq!(
            world.log.last(),
            Some(&Request::Index(IndexRequest::CreateCollection {
                name: "fresh".to_string(),
                dim: 3,
                distance,
            }))
        );
    }
}

#[test]
fn the_unknown_metric_is_sent_and_refused_by_the_index() {
    let (mut world, vs) = started();
    let res = world.run(vs.create_collection(&collection("fresh", 3, "UnknownDistance")));
    assert_eq!(
        world.log.last(),
        Some(&Request::Index(IndexRequest::CreateCollection {
            name: "fresh".to_string(),
            dim: 3,
            distance: Distance::UnknownDistance,
        }))
    );
    assert_eq!(
        res.unwrap_err(),
        StoreError::QdrantCreateError(
            "Failed to create collection: collection fresh cannot be created".to_string()
        )
    );
}

#[test]
fn a_metric_name_that_the_client_does_not_know_is_refused_before_anything_is_created() {
    for name in ["cosine", "Manhattan", "", "Cosine ", "Euclidean"] {
        let (mut world, vs) = started();
        let res = world.run(vs.create_collection(&collection("fresh", 3, name)));
        assert_eq!(res.unwrap_err(), StoreError::InvalidDistanceName(name.to_string()));
        assert_eq!(world.log, vec![Request::Index(IndexRequest::ListCollections)]);
        assert!(!world.index.contains_key("fresh"));
    }
}

#[test]
fn a_listing_that_fails_is_a_fetch_error() {
    let (mut world, vs) = started();
    world.fail_after = Some(0);
    assert_eq!(
        world.run(vs.list_collections()).unwrap_err(),
        StoreError::QdrantFetchError(DOWN.to_string())
    );
    world.fail_after = Some(0);
    assert_eq!(
        world.run(vs.create_collection(&collection("fresh", 3, "Dot"))).unwrap_err(),
        StoreError::QdrantFetchError(DOWN.to_string())
    );
}

#[test]
fn a_creation_that_fails_is_a_create_error() {
    let (mut world, vs) = started();
    world.fail_after = Some(1);
    assert_eq!(
        world.run(vs.create_collection(&collection("fresh", 3, "Dot"))).unwrap_err(),
        StoreError::QdrantCreateError("Failed to create collection: service is down".to_string())
    );
}

#[test]
fn deleting_a_collection_that_does_not_exist_is_an_error() {
    let (mut world, vs) = started();
    assert_eq!(
        world.run(vs.delete_collection("nowhere")).unwrap_err(),
        StoreError::QdrantDeleteError("Failed to delete collection: nowhere".to_string())
    );
    world.run(vs.delete_collection("note")).unwrap();
    assert_eq!(
        world.run(vs.delete_collection("note")).unwrap_err(),
        StoreError::QdrantDeleteError("Failed to delete collection: note".to_string())
    );
}

#[test]
fn reset_empties_a_populated_collection() {
    let (mut world, vs) = started();
    let clct = qdrant().collections[0].clone();
    world
        .run(vs.update_points("task", vec![(1, bits(&[1.0; DIM])), (2, bits(&[2.0; DIM]))]))
        .unwrap();
    assert_eq!(world.points("task").len(), 2);
    world.log.clear();
    world.run(vs.reset_collection(&clct)).unwrap();
    assert_eq!(world.points("task").len(), 0);
    assert_eq!(world.index["task"].dim, 4);
    assert_eq!(world.index["task"].distance, Distance::Cosine);
    assert_eq!(world.points("note").len(), 0);
    assert_eq!(
        world.log,
        vec![
            Request::Index(IndexRequest::DeleteCollection { name: "task".to_string() }),
            Request::Index(IndexRequest::ListCollections),
            Request::Index(IndexRequest::CreateCollection {
                name: "task".to_string(),
                dim: 4,
                distance: Distance::Cosine,
            }),
        ]
    );
}

#[test]
fn reset_of_a_collection_that_does_not_exist_fails_and_creates_nothing() {
    let (mut world, vs) = started();
    let res = world.run(vs.reset_collection(&collection("fresh", 3, "Dot")));
    assert_eq!(
        res.unwrap_err(),
        StoreError::QdrantDeleteError("Failed to delete collection: fresh".to_string())
    );
    assert!(!world.index.contains_key("fresh"));
    assert_eq!(world.log.len(), 1);
}

#[test]
fn reset_that_fails_while_creating_leaves_the_collection_absent() {
    let (mut world, vs) = started();
    world.fail_after = Some(2);
    let res = world.run(vs.reset_collection(&qdrant().collections[0]));
    assert_eq!(
        res.unwrap_err(),
        StoreError::QdrantCreateError("Failed to create collection: service is down".to_string())
    );
    assert!(!world.index.contains_key("task"));
}

#[test]
fn what_is_written_is_read_back_bit_for_bit() {
    let (mut world, vs) = started();
    let odd = vec![0.1_f32.to_bits(), (-0.0_f32).to_bits(), f32::MAX.to_bits(), 1.0e-40_f32.to_bits()];
    let other = bits(&[3.5, -2.25, 0.0, 7.0]);
    world.run(vs.update_points("task", vec![(9, odd.clone()), (3, other.clone())])).unwrap();
    let embs = world.run(vs.get_point_embeddings("task", vec![9, 3])).unwrap();
    assert_eq!(embs, vec![odd.clone(), other.clone()]);
    let embs = world.run(vs.get_point_embeddings("task", vec![3, 9, 3])).unwrap();
    assert_eq!(embs, vec![other.clone(), odd.clone(), other]);
}

#[test]
fn a_later_write_replaces_the_vector() {
    let (mut world, vs) = started();
    world.run(vs.update_points("task", vec![(1, bits(&[1.0; DIM]))])).unwrap();
    world.run(vs.update_points("task", vec![(1, bits(&[2.0; DIM])), (1, bits(&[3.0; DIM]))])).unwrap();
    assert_eq!(
        world.run(vs.get_point_embeddings("task", vec![1])).unwrap(),
        vec![bits(&[3.0; DIM])]
    );
}

#[test]
fn ids_that_are_not_held_are_left_out() {
    let (mut world, vs) = started();
    world.run(vs.update_points("task", vec![(1, bits(&[1.0; DIM])), (3, bits(&[3.0; DIM]))])).unwrap();
    let embs = world.run(vs.get_point_embeddings("task", vec![1, 2, 3, 4])).unwrap();
    assert_eq!(embs, vec![bits(&[1.0; DIM]), bits(&[3.0; DIM])]);
    assert_eq!(world.run(vs.get_point_embeddings("task", vec![])).unwrap(), Vec::<Vec<u32>>::new());
}

#[test]
fn the_point_is_written_under_the_entity_id_with_an_empty_payload() {
    let (mut world, vs) = started();
    world.run(vs.update_points("task", vec![(42, bits(&[1.0; DIM])), (-1, bits(&[2.0; DIM]))])).unwrap();
    match world.log.last().unwrap() {
        Request::Index(IndexRequest::UpsertPoints { collection, points }) => {
            assert_eq!(collection, "task");
            assert_eq!(points.len(), 2);
            assert_eq!(points[0].id, 42);
            assert_eq!(points[0].vector, bits(&[1.0; DIM]));
            assert_eq!(points[1].id, u64::MAX);
        },
        other => panic!("not a write: {other:?}"),
    }
    let found = world.run(vs.seach_points("task", bits(&[2.0; DIM]), 5)).unwrap();
    let mut ids: Vec<i64> = found.iter().map(|f| f.0).collect();
    ids.sort();
    assert_eq!(ids, vec![-1, 42]);
}

#[test]
fn a_vector_of_the_wrong_length_is_refused_before_anything_is_sent() {
    let (mut world, vs) = started();
    world.run(vs.update_points("task", vec![(1, bits(&[1.0; DIM]))])).unwrap();
    world.log.clear();
    let res = world.run(vs.update_points(
        "task",
        vec![(2, bits(&[1.0; DIM])), (3, bits(&[1.0; DIM + 1])), (4, bits(&[1.0; 1]))],
    ));
    let error = res.unwrap_err();
    assert_eq!(
        error,
        StoreError::QdrantUpdateError(UpdateFailure::DimensionMismatch { id: 3, expected: 4, found: 5 })
    );
    assert!(error.is_dimension_mismatch());
    assert_eq!(world.log.len(), 0);
    assert_eq!(world.points("task").len(), 1);
    assert!(world.points("task").contains_key(&1));
}

#[test]
fn an_empty_vector_is_a_mismatch_too() {
    let (mut world, vs) = started();
    let res = world.run(vs.update_points("note", vec![(1, vec![])]));
    assert_eq!(
        res.unwrap_err(),
        StoreError::QdrantUpdateError(UpdateFailure::DimensionMismatch { id: 1, expected: 2, found: 0 })
    );
}

#[test]
fn an_undeclared_collection_is_guarded_by_the_index() {
    let (mut world, vs) = started();
    world.run(vs.create_collection(&collection("fresh", 3, "Dot"))).unwrap();
    world.run(vs.update_points("fresh", vec![(1, bits(&[1.0; 3]))])).unwrap();
    let res = world.run(vs.update_points("fresh", vec![(2, bits(&[1.0; 2]))]));
    let error = res.unwrap_err();
    assert_eq!(
        error,
        StoreError::QdrantUpdateError(UpdateFailure::Remote("wrong vector dimension".to_string()))
    );
    assert!(!error.is_dimension_mismatch());
    assert_eq!(world.points("fresh").len(), 1);
}

#[test]
fn a_write_that_the_index_does_not_acknowledge_is_an_update_error() {
    let (mut world, vs) = started();
    world.fail_after = Some(0);
    let res = world.run(vs.update_points("task", vec![(1, bits(&[1.0; DIM]))]));
    assert_eq!(
        res.unwrap_err(),
        StoreError::QdrantUpdateError(UpdateFailure::Remote(DOWN.to_string()))
    );
    assert_eq!(world.points("task").len(), 0);
}

#[test]
fn an_empty_write_is_sent_as_it_is() {
    let (mut world, vs) = started();
    world.run(vs.update_points("task", vec![])).unwrap();
    assert_eq!(
        world.log,
        vec![Request::Index(IndexRequest::UpsertPoints { collection: "task".to_string(), points: vec![] })]
    );
}

#[test]
fn search_finds_the_only_point_with_a_score_of_one() {
    let (mut world, vs) = started();
    let v = bits(&[0.3, -1.5, 2.0, 0.25]);
    world.run(vs.update_points("task", vec![(1, v.clone())])).unwrap();
    let found = world.run(vs.seach_points("task", v, 1)).unwrap();
    assert_eq!(found.len(), 1);
    assert_eq!(found[0].0, 1);
    assert!((f32::from_bits(found[0].1) - 1.0).abs() < 1e-4);
}

#[test]
fn search_returns_at_most_limit_nearest_first() {
    let (mut world, vs) = started();
    world
        .run(vs.update_points(
            "task",
            vec![
                (1, bits(&[1.0, 0.0, 0.0, 0.0])),
                (2, bits(&[1.0, 1.0, 0.0, 0.0])),
                (3, bits(&[0.0, 0.0, 1.0, 0.0])),
            ],
        ))
        .unwrap();
    let found = world.run(vs.seach_points("task", bits(&[1.0, 0.1, 0.0, 0.0]), 2)).unwrap();
    assert_eq!(found.iter().map(|f| f.0).collect::<Vec<_>>(), vec![1, 2]);
    assert!(f32::from_bits(found[0].1) >= f32::from_bits(found[1].1));
    assert_eq!(world.run(vs.seach_points("task", bits(&[1.0, 0.1, 0.0, 0.0]), 0)).unwrap(), vec![]);
    assert_eq!(world.run(vs.seach_points("task", bits(&[1.0, 0.1, 0.0, 0.0]), 10)).unwrap().len(), 3);
}

#[test]
fn search_by_distance_returns_the_smallest_distance_first() {
    let (mut world, vs) = started();
    world.run(vs.create_collection(&collection("place", 2, "Euclid"))).unwrap();
    world
        .run(vs.update_points(
            "place",
            vec![(1, bits(&[0.0, 0.0])), (2, bits(&[3.0, 4.0])), (3, bits(&[1.0, 0.0]))],
        ))
        .unwrap();
    let found = world.run(vs.seach_points("place", bits(&[0.0, 0.0]), 3)).unwrap();
    assert_eq!(found.iter().map(|f| f.0).collect::<Vec<_>>(), vec![1, 3, 2]);
    assert_eq!(f32::from_bits(found[2].1), 5.0);
}

#[test]
fn search_in_an_empty_collection_finds_nothing() {
    let (mut world, vs) = started();
    assert_eq!(world.run(vs.seach_points("task", bits(&[1.0; DIM]), 3)).unwrap(), vec![]);
}

#[test]
fn a_search_or_lookup_that_fails_is_a_fetch_error() {
    let (mut world, vs) = started();
    world.fail_after = Some(0);
    assert_eq!(
        world.run(vs.seach_points("task", bits(&[1.0; DIM]), 3)).unwrap_err(),
        StoreError::QdrantFetchError(DOWN.to_string())
    );
    world.fail_after = Some(0);
    assert_eq!(
        world.run(vs.get_point_embeddings("task", vec![1])).unwrap_err(),
        StoreError::QdrantFetchError(DOWN.to_string())
    );
    assert_eq!(
        world.run(vs.get_point_embeddings("nowhere", vec![1])).unwrap_err(),
        StoreError::QdrantFetchError("collection nowhere does not exist".to_string())
    );
}

#[test]
fn deleted_points_are_neither_read_nor_found() {
    let (mut world, vs) = started();
    world.run(vs.update_points("task", vec![(1, bits(&[1.0; DIM])), (2, bits(&[2.0; DIM]))])).unwrap();
    world.run(vs.delete_points("task", vec![1])).unwrap();
    assert_eq!(world.run(vs.get_point_embeddings("task", vec![1])).unwrap(), Vec::<Vec<u32>>::new());
    let found = world.run(vs.seach_points("task", bits(&[1.0; DIM]), 10)).unwrap();
    assert_eq!(found.iter().map(|f| f.0).collect::<Vec<_>>(), vec![2]);
}

#[test]
fn deleting_points_that_are_not_there_is_no_error() {
    let (mut world, vs) = started();
    world.run(vs.delete_points("task", vec![1, 2, 3])).unwrap();
    world.run(vs.delete_points("task", vec![])).unwrap();
}

#[test]
fn a_deletion_of_points_that_fails_is_a_delete_error() {
    let (mut world, vs) = started();
    world.fail_after = Some(0);
    assert_eq!(
        world.run(vs.delete_points("task", vec![1])).unwrap_err(),
        StoreError::QdrantDeleteError("Failed to delete points: service is down".to_string())
    );
}

fn resume_with<O: Operation>(step: Step<O, O::Output, O::Error>, reply: Reply) -> Result<O::Output, O::Error> {
    match step {
        Step::Call(state, _) => match state.resume(reply) {
            Step::Done(result) => result,
            Step::Call(..) => panic!("the operation asks for more"),
        },
        Step::Done(_) => panic!("the operation asked for nothing"),
    }
}

#[test]
fn a_reply_of_the_wrong_kind_is_the_failure_of_the_operation() {
    let (_, vs) = started();
    let wrong = || Reply::Db(DbReply::Connected);
    assert_eq!(
        resume_with(vs.list_collections(), wrong()).unwrap_err(),
        StoreError::QdrantFetchError("unexpected reply".to_string())
    );
    assert_eq!(
        resume_with(vs.list_collections(), Reply::Index(IndexReply::Done)).unwrap_err(),
        StoreError::QdrantFetchError("unexpected reply".to_string())
    );
    assert_eq!(
        resume_with(vs.get_point_embeddings("task", vec![1]), wrong()).unwrap_err(),
        StoreError::QdrantFetchError("unexpected reply".to_string())
    );
    assert_eq!(
        resume_with(vs.seach_points("task", vec![], 1), wrong()).unwrap_err(),
        StoreError::QdrantFetchError("unexpected reply".to_string())
    );
    assert_eq!(
        resume_with(vs.update_points("other", vec![]), wrong()).unwrap_err(),
        StoreError::QdrantUpdateError(UpdateFailure::Remote("unexpected reply".to_string()))
    );
    assert_eq!(
        resume_with(vs.delete_points("task", vec![]), wrong()).unwrap_err(),
        StoreError::QdrantDeleteError("Failed to delete points: unexpected reply".to_string())
    );
    assert_eq!(
        resume_with(vs.delete_collection("task"), wrong()).unwrap_err(),
        StoreError::QdrantDeleteError("Failed to delete collection: task".to_string())
    );
    assert_eq!(
        resume_with(vs.create_collection(&collection("a", 1, "Dot")), wrong()).unwrap_err(),
        StoreError::QdrantFetchError("unexpected reply".to_string())
    );
    assert_eq!(
        resume_with(VecStore::from_config(&qdrant()), wrong()).unwrap_err(),
        StoreError::QdrantUrlNotFound(
            "Failed to create qdrant client with error: unexpected reply".to_string()
        )
    );
}

#[test]
fn a_returned_point_without_one_plain_vector_is_a_fetch_error() {
    let (_, vs) = started();
    let good = RetrievedPoint { id: Some(PointId::Num(1)), vectors: Some(Vectors::Dense(vec![7, 8])) };
    let anonymous = RetrievedPoint { id: None, vectors: Some(Vectors::Dense(vec![9])) };
    let named = RetrievedPoint { id: Some(PointId::Num(2)), vectors: Some(Vectors::Named) };
    let bare = RetrievedPoint { id: Some(PointId::Num(3)), vectors: None };
    assert_eq!(
        resume_with(
            vs.get_point_embeddings("task", vec![1]),
            Reply::Index(IndexReply::Points(vec![good.clone(), anonymous.clone()]))
        )
        .unwrap(),
        vec![vec![7, 8], vec![9]]
    );
    for bad in [named, bare] {
        assert_eq!(
            resume_with(
                vs.get_point_embeddings("task", vec![1]),
                Reply::Index(IndexReply::Points(vec![good.clone(), bad]))
            )
            .unwrap_err(),
            StoreError::QdrantFetchError("Wrong vector type".to_string())
        );
    }
}

#[test]
fn hits_with_other_ids_are_dropped_and_a_hit_without_an_id_is_a_fetch_error() {
    let (_, vs) = started();
    let numbered = ScoredPoint { id: Some(PointId::Num(7)), score: 11 };
    let large = ScoredPoint { id: Some(PointId::Num(u64::MAX)), score: 12 };
    let other = ScoredPoint { id: Some(PointId::Uuid), score: 13 };
    let anonymous = ScoredPoint { id: None, score: 14 };
    assert_eq!(
        resume_with(
            vs.seach_points("task", vec![], 3),
            Reply::Index(IndexReply::Hits(vec![other, numbered, other, large]))
        )
        .unwrap(),
        vec![(7, 11), (-1, 12)]
    );
    assert_eq!(
        resume_with(
            vs.seach_points("task", vec![], 3),
            Reply::Index(IndexReply::Hits(vec![numbered, anonymous]))
        )
        .unwrap_err(),
        StoreError::QdrantFetchError("Point without an id".to_string())
    );
}

#[test]
fn test_embed_ok() {
    let mut world = World::new();
    world.embedding_dim = 1536;
    let embedder = OpenAIEmbedder::from_config(&config().openai_embedder);
    let text = "Once upon a time";
    let emb = world.run(embedder.embed(text)).unwrap();
    assert_eq!(emb.len(), 1536);
}

#[test]
fn test_embeds_ok() {
    let mut world = World::new();
    let embedder = OpenAIEmbedder::from_config(&config().openai_embedder);
    let text1 = "Once upon a time";
    let text2 = "Once upon a time again";
    let embs = world.run(embedder.embeds(vec![text1.to_string(), text2.to_string()])).unwrap();
    assert_eq!(embs.len(), 2);
    assert_eq!(embs[0], bits(&embedding_of(text1, DIM)));
    assert_eq!(embs[1], bits(&embedding_of(text2, DIM)));
}

#[test]
fn the_embedder_asks_its_model_for_the_texts() {
    let mut world = World::new();
    let embedder = OpenAIEmbedder::from_config(&config().openai_embedder);
    world.run(embedder.embed("one")).unwrap();
    world.run(embedder.embeds(vec!["two".to_string(), "three".to_string()])).unwrap();
    match &world.log[..] {
        [Request::Embed(first), Request::Embed(second)] => {
            assert_eq!(first.model, "text-embedding-ada-002");
            assert_eq!(first.input, vec!["one".to_string()]);
            assert_eq!(second.model, "text-embedding-ada-002");
            assert_eq!(second.input, vec!["two".to_string(), "three".to_string()]);
        },
        other => panic!("unexpected requests: {other:?}"),
    }
}

#[test]
fn embed_returns_the_first_vector_and_fails_on_an_empty_response() {
    let embedder = OpenAIEmbedder::from_config(&config().openai_embedder);
    assert_eq!(
        resume_with(embedder.embed("x"), Reply::Embed(EmbedReply::Data(vec![vec![1, 2], vec![3]]))).unwrap(),
        vec![1, 2]
    );
    assert_eq!(
        resume_with(embedder.embed("x"), Reply::Embed(EmbedReply::Data(vec![]))).unwrap_err(),
        EmbedderError::OpenAIEmbedderRequestError(
            "OpenAIEmbedder::embed: response.data.first() is None".to_string()
        )
    );
    assert_eq!(
        resume_with(embedder.embeds(vec![]), Reply::Embed(EmbedReply::Data(vec![]))).unwrap(),
        Vec::<Vec<u32>>::new()
    );
    for step_error in [
        resume_with(embedder.embed("x"), Reply::Embed(EmbedReply::Failed("quota".to_string()))).unwrap_err(),
        resume_with(embedder.embeds(vec![]), Reply::Embed(EmbedReply::Failed("quota".to_string()))).unwrap_err(),
    ] {
        assert_eq!(step_error, EmbedderError::OpenAIEmbedderRequestError("quota".to_string()));
    }
    assert_eq!(
        resume_with(embedder.embed("x"), Reply::Index(IndexReply::Done)).unwrap_err(),
        EmbedderError::OpenAIEmbedderRequestError("unexpected reply".to_string())
    );
}

#[test]
fn task_test_create_ok() {
    let (mut world, mm) = started_model();
    let ctx = Ctx::root_ctx();
    let task = TaskForCreate { story: "This is a story".to_string() };
    let id = world.run(TaskBmc::create(&ctx, &mm, task)).unwrap();
    let embs = world.run(mm.vs.get_point_embeddings(TaskBmc::COLLECTION_NAME, vec![id as u64])).unwrap();
    assert_eq!(embs.len(), 1);
    world.run(TaskBmc::delete(&ctx, &mm, id)).unwrap();
}

#[test]
fn test_read_ok() {
    let (mut world, mm) = started_model();
    let ctx = Ctx::root_ctx();
    let task = TaskForCreate { story: "This is a story".to_string() };
    let id = world.run(TaskBmc::create(&ctx, &mm, task)).unwrap();
    let task = world.run(TaskBmc::read(&ctx, &mm, id)).unwrap();
    assert_eq!(task.story, "This is a story");
    world.run(TaskBmc::delete(&ctx, &mm, id)).unwrap();
}

#[test]
fn test_update_ok() {
    let (mut world, mm) = started_model();
    let ctx = Ctx::root_ctx();
    let task_for_create = TaskForCreate { story: "This is a story".to_string() };
    let id = world.run(TaskBmc::create(&ctx, &mm, task_for_create.clone())).unwrap();
    let task_for_update = TaskForUpdate { id, story: "This is a new story".to_string() };
    world.run(TaskBmc::update(&ctx, &mm, task_for_update)).unwrap();
    let task = world.run(TaskBmc::read(&ctx, &mm, id)).unwrap();
    assert_eq!(task.story, "This is a new story");
    world.run(TaskBmc::delete(&ctx, &mm, id)).unwrap();
}

#[test]
fn task_test_delete_ok() {
    let (mut world, mm) = started_model();
    let ctx = Ctx::root_ctx();
    let task = TaskForCreate { story: "This is a story".to_string() };
    let id = world.run(TaskBmc::create(&ctx, &mm, task)).unwrap();
    world.run(TaskBmc::delete(&ctx, &mm, id)).unwrap();
    let task = world.run(TaskBmc::read(&ctx, &mm, id));
    assert!(task.is_err());
}

#[test]
fn the_names_that_bind_a_task_to_its_stores() {
    assert_eq!(TaskBmc::COLLECTION_NAME, "task");
    assert_eq!(TaskBmc::DB_TABLE_NAME, "story");
}

#[test]
fn a_task_goes_through_create_read_update_delete() {
    let (mut world, mm) = started_model();
    let ctx = Ctx::new(5, "ada".to_string()).unwrap();
    let n = world.run(TaskBmc::create(&ctx, &mm, TaskForCreate { story: "A".to_string() })).unwrap();
    assert_eq!(
        world.run(TaskBmc::read(&ctx, &mm, n)).unwrap(),
        Task { id: n, story: "A".to_string() }
    );
    assert_eq!(world.points("task")[&(n as u64)], embedding_of("A", DIM));

    world.run(TaskBmc::update(&ctx, &mm, TaskForUpdate { id: n, story: "B".to_string() })).unwrap();
    assert_eq!(
        world.run(TaskBmc::read(&ctx, &mm, n)).unwrap(),
        Task { id: n, story: "B".to_string() }
    );
    assert_eq!(world.points("task")[&(n as u64)], embedding_of("B", DIM));
    assert_ne!(embedding_of("A", DIM), embedding_of("B", DIM));

    world.run(TaskBmc::delete(&ctx, &mm, n)).unwrap();
    assert_eq!(
        world.run(TaskBmc::read(&ctx, &mm, n)).unwrap_err(),
        ModelError::EntityNotFound { entity: "task", id: n }
    );
    assert!(!world.points("task").contains_key(&(n as u64)));
}

#[test]
fn create_asks_the_relational_store_then_the_embedder_then_the_index() {
    let (mut world, mm) = started_model();
    let ctx = Ctx::root_ctx();
    let id = world.run(TaskBmc::create(&ctx, &mm, TaskForCreate { story: "A".to_string() })).unwrap();
    assert_eq!(id, 1);
    assert_eq!(world.log.len(), 3);
    assert_eq!(
        world.log[0],
        Request::Db(DbRequest::Insert { table: "story".to_string(), story: "A".to_string() })
    );
    assert!(matches!(&world.log[1], Request::Embed(r) if r.input == vec!["A".to_string()]));
    assert!(matches!(
        &world.log[2],
        Request::Index(IndexRequest::UpsertPoints { collection, points })
            if collection == "task" && points.len() == 1 && points[0].id == 1
    ));
    let second = world.run(TaskBmc::create(&ctx, &mm, TaskForCreate { story: "B".to_string() })).unwrap();
    assert_eq!(second, 2);
}

#[test]
fn update_or_delete_of_a_task_that_does_not_exist_touches_neither_embedder_nor_index() {
    let (mut world, mm) = started_model();
    let ctx = Ctx::root_ctx();
    let id = world.run(TaskBmc::create(&ctx, &mm, TaskForCreate { story: "A".to_string() })).unwrap();
    world.log.clear();
    let missing = id + 100;
    assert_eq!(
        world.run(TaskBmc::update(&ctx, &mm, TaskForUpdate { id: missing, story: "B".to_string() })).unwrap_err(),
        ModelError::EntityNotFound { entity: "task", id: missing }
    );
    assert_eq!(
        world.run(TaskBmc::delete(&ctx, &mm, missing)).unwrap_err(),
        ModelError::EntityNotFound { entity: "task", id: missing }
    );
    assert_eq!(world.index_requests(), 0);
    assert_eq!(world.embed_requests(), 0);
    assert_eq!(world.log.len(), 2);
    assert_eq!(world.points("task").len(), 1);
    assert_eq!(world.points("task")[&(id as u64)], embedding_of("A", DIM));
    assert_eq!(world.tables["story"][&id], "A");
}

#[test]
fn a_failing_insert_stops_the_creation_at_once() {
    let (mut world, mm) = started_model();
    world.fail_after = Some(0);
    let res = world.run(TaskBmc::create(&Ctx::root_ctx(), &mm, TaskForCreate { story: "A".to_string() }));
    assert_eq!(res.unwrap_err(), ModelError::Sqlx(DOWN.to_string()));
    assert_eq!(world.log.len(), 1);
    assert_eq!(world.tables["story"].len(), 0);
}

#[test]
fn a_failing_embedder_leaves_the_row_without_a_point() {
    let (mut world, mm) = started_model();
    world.fail_after = Some(1);
    let res = world.run(TaskBmc::create(&Ctx::root_ctx(), &mm, TaskForCreate { story: "A".to_string() }));
    assert_eq!(
        res.unwrap_err(),
        ModelError::Embedder(EmbedderError::OpenAIEmbedderRequestError(DOWN.to_string()))
    );
    assert_eq!(world.index_requests(), 0);
    assert_eq!(world.tables["story"][&1], "A");
    assert_eq!(world.points("task").len(), 0);
}

#[test]
fn a_failing_index_is_reported_and_the_row_stays() {
    let (mut world, mm) = started_model();
    world.fail_after = Some(2);
    let res = world.run(TaskBmc::create(&Ctx::root_ctx(), &mm, TaskForCreate { story: "A".to_string() }));
    assert_eq!(
        res.unwrap_err(),
        ModelError::Store(StoreError::QdrantUpdateError(UpdateFailure::Remote(DOWN.to_string())))
    );
    assert_eq!(world.tables["story"][&1], "A");
    assert_eq!(world.points("task").len(), 0);
}

#[test]
fn an_embedding_of_the_wrong_length_is_a_dimension_mismatch() {
    let (mut world, mm) = started_model();
    world.embedding_dim = DIM + 2;
    let res = world.run(TaskBmc::create(&Ctx::root_ctx(), &mm, TaskForCreate { story: "A".to_string() }));
    assert_eq!(
        res.unwrap_err(),
        ModelError::Store(StoreError::QdrantUpdateError(UpdateFailure::DimensionMismatch {
            id: 1,
            expected: 4,
            found: 6,
        }))
    );
    assert_eq!(world.index_requests(), 0);
    assert_eq!(world.tables["story"][&1], "A");
}

#[test]
fn a_failing_update_of_the_point_leaves_the_new_story_with_the_old_vector() {
    let (mut world, mm) = started_model();
    let ctx = Ctx::root_ctx();
    let id = world.run(TaskBmc::create(&ctx, &mm, TaskForCreate { story: "A".to_string() })).unwrap();
    world.fail_after = Some(2);
    let res = world.run(TaskBmc::update(&ctx, &mm, TaskForUpdate { id, story: "B".to_string() }));
    assert!(matches!(res, Err(ModelError::Store(StoreError::QdrantUpdateError(_)))));
    assert_eq!(world.tables["story"][&id], "B");
    assert_eq!(world.points("task")[&(id as u64)], embedding_of("A", DIM));
    world.fail_after = Some(0);
    let res = world.run(TaskBmc::update(&ctx, &mm, TaskForUpdate { id, story: "C".to_string() }));
    assert_eq!(res.unwrap_err(), ModelError::Sqlx(DOWN.to_string()));
    assert_eq!(world.tables["story"][&id], "B");
}

#[test]
fn a_failing_removal_of_the_point_leaves_an_orphan() {
    let (mut world, mm) = started_model();
    let ctx = Ctx::root_ctx();
    let id = world.run(TaskBmc::create(&ctx, &mm, TaskForCreate { story: "A".to_string() })).unwrap();
    world.fail_after = Some(1);
    let res = world.run(TaskBmc::delete(&ctx, &mm, id));
    assert_eq!(
        res.unwrap_err(),
        ModelError::Store(StoreError::QdrantDeleteError(
            "Failed to delete points: service is down".to_string()
        ))
    );
    assert!(!world.tables["story"].contains_key(&id));
    assert!(world.points("task").contains_key(&(id as u64)));
    world.fail_after = Some(0);
    assert_eq!(
        world.run(TaskBmc::delete(&ctx, &mm, id)).unwrap_err(),
        ModelError::Sqlx(DOWN.to_string())
    );
}

#[test]
fn read_tells_a_missing_row_from_a_failed_query() {
    let (mut world, mm) = started_model();
    let ctx = Ctx::root_ctx();
    assert_eq!(
        world.run(TaskBmc::read(&ctx, &mm, 77)).unwrap_err(),
        ModelError::EntityNotFound { entity: "task", id: 77 }
    );
    world.fail_after = Some(0);
    assert_eq!(world.run(TaskBmc::read(&ctx, &mm, 77)).unwrap_err(), ModelError::Sqlx(DOWN.to_string()));
    assert_eq!(
        resume_with(TaskBmc::read(&ctx, &mm, 77), Reply::Index(IndexReply::Done)).unwrap_err(),
        ModelError::Sqlx("unexpected reply".to_string())
    );
    assert_eq!(
        world.log[0],
        Request::Db(DbRequest::Select { table: "story".to_string(), id: 77 })
    );
}

#[test]
fn updates_that_interleave_can_leave_the_vector_of_the_older_story() {
    let (mut world, mm) = started_model();
    let ctx = Ctx::root_ctx();
    let id = world.run(TaskBmc::create(&ctx, &mm, TaskForCreate { story: "A".to_string() })).unwrap();
    let first = TaskBmc::update(&ctx, &mm, TaskForUpdate { id, story: "B".to_string() });
    let second = TaskBmc::update(&ctx, &mm, TaskForUpdate { id, story: "C".to_string() });
    let first = world.advance(first);
    let second = world.advance(second);
    assert_eq!(world.tables["story"][&id], "C");
    world.run(second).unwrap();
    assert_eq!(world.points("task")[&(id as u64)], embedding_of("C", DIM));
    world.run(first).unwrap();
    assert_eq!(world.tables["story"][&id], "C");
    assert_eq!(world.points("task")[&(id as u64)], embedding_of("B", DIM));
}

#[test]
fn a_delete_that_overtakes_an_update_leaves_a_point_without_a_row() {
    let (mut world, mm) = started_model();
    let ctx = Ctx::root_ctx();
    let id = world.run(TaskBmc::create(&ctx, &mm, TaskForCreate { story: "A".to_string() })).unwrap();
    let update = TaskBmc::update(&ctx, &mm, TaskForUpdate { id, story: "B".to_string() });
    let update = world.advance(update);
    world.run(TaskBmc::delete(&ctx, &mm, id)).unwrap();
    assert!(!world.points("task").contains_key(&(id as u64)));
    world.run(update).unwrap();
    assert!(!world.tables["story"].contains_key(&id));
    assert_eq!(world.points("task")[&(id as u64)], embedding_of("B", DIM));
}

#[test]
fn a_reader_between_the_two_halves_of_a_reset_sees_no_collection() {
    let (mut world, vs) = started();
    let reset = vs.reset_collection(&qdrant().collections[0]);
    let reset = world.advance(reset);
    let names = world.run(vs.list_collections()).unwrap();
    assert!(!names.contains(&"task".to_string()));
    world.run(reset).unwrap();
    let names = world.run(vs.list_collections()).unwrap();
    assert!(names.contains(&"task".to_string()));
}

#[test]
fn duplicates_know_what_their_source_knows() {
    let (_, mm) = started_model();
    let copy = mm.duplicate();
    assert_eq!(copy.embedder.model, mm.embedder.model);
    assert_eq!(copy.vs.collections.len(), 2);
    assert_eq!(copy.vs.collections[1].name, "note");
    assert_eq!(copy.vs.collections[1].dim, 2);
    assert_eq!(copy.vs.collections[1].distance, "Dot");
    assert_eq!(mm.vs.duplicate().declared_dim("task"), Some(4));
    assert_eq!(mm.embedder.duplicate().model, "text-embedding-ada-002");
}

#[test]
fn the_first_declared_collection_of_a_name_sets_the_dimension() {
    let vs = VecStore { collections: vec![collection("task", 4, "Cosine"), collection("task", 8, "Dot")] };
    assert_eq!(vs.declared_dim("task"), Some(4));
    let mut world = World::new();
    let res = world.run(vs.update_points("task", vec![(1, bits(&[1.0; 8]))]));
    assert_eq!(
        res.unwrap_err(),
        StoreError::QdrantUpdateError(UpdateFailure::DimensionMismatch { id: 1, expected: 4, found: 8 })
    );
}
