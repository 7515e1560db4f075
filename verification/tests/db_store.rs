use ribbit_core::model::store::db_store::DbRequest;

#[test]
fn each_request_has_its_statement() {
    let table = "story".to_string();
    assert_eq!(
        DbRequest::Insert { table: table.clone(), story: "A".to_string() }.statement().unwrap(),
        "INSERT INTO story (story) VALUES ($1) RETURNING id"
    );
    assert_eq!(
        DbRequest::Update { table: table.clone(), id: 3, story: "A".to_string() }.statement().unwrap(),
        "UPDATE story SET story = $1 WHERE id = $2"
    );
    assert_eq!(
        DbRequest::Select { table: table.clone(), id: 3 }.statement().unwrap(),
        "SELECT id, story FROM story WHERE id = $1"
    );
    assert_eq!(
        DbRequest::Delete { table, id: 3 }.statement().unwrap(),
        "DELETE FROM story WHERE id = $1"
    );
}

#[test]
fn opening_the_pool_has_no_statement() {
    assert_eq!(DbRequest::Connect { url: "postgres://localhost/app".to_string() }.statement(), None);
}
