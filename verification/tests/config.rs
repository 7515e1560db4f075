use ribbit_core::config::{Qdrant, QdrantCollection};

fn collection(name: &str, dim: u64) -> QdrantCollection {
    QdrantCollection { name: name.to_string(), dim, distance: "Cosine".to_string() }
}

#[test]
fn the_first_collection_is_the_one_for_development() {
    let qdrant = Qdrant {
        url: "http://localhost:6334".to_string(),
        collections: vec![collection("task", 4), collection("note", 2)],
    };
    let first = qdrant.dev_collection().unwrap();
    assert_eq!(first.name, "task");
    assert_eq!(first.dim, 4);
}

#[test]
fn no_collection_no_development_collection() {
    let qdrant = Qdrant { url: String::new(), collections: vec![] };
    assert!(qdrant.dev_collection().is_none());
}

#[test]
fn a_duplicate_has_the_same_name_dimension_and_metric() {
    let clct = QdrantCollection { name: "task".to_string(), dim: 1536, distance: "Dot".to_string() };
    let copy = clct.duplicate();
    assert_eq!(copy.name, "task");
    assert_eq!(copy.dim, 1536);
    assert_eq!(copy.distance, "Dot");
}
