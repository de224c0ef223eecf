//! Keyed collection behaviour against a real SQLite store.

use gosh_database::models::save_model_results;
use gosh_database::DbConnection;
use gosh_database::DbError;

fn temp_db(dir: &tempfile::TempDir) -> DbConnection {
    let path = dir.path().join("test.sqlite");
    DbConnection::connect(path.to_str().unwrap()).unwrap()
}

#[test]
fn test_checkpoint_and_collection() {
    let tdir = tempfile::tempdir().unwrap();
    let mut db = temp_db(&tdir);
    let key = "Test.ckpt";

    let x: f64 = -12.0;
    // save into collection
    db.put_into_collection(key, "test1", &bincode::serialize(&x).unwrap()).unwrap();
    // commit a checkpoint
    db.commit_checkpoint(key, &bincode::serialize(&x).unwrap()).unwrap();

    let mut x: f64 = 12.0;
    // restore data from checkpoint
    x = bincode::deserialize(&db.restore_from_checkpoint(key).unwrap()).unwrap();
    assert_eq!(x, -12.0);
}

#[test]
fn collection_replace_semantics() {
    let tdir = tempfile::tempdir().unwrap();
    let mut db = temp_db(&tdir);
    let v1 = vec![1u8, 2, 3];
    let v2 = vec![9u8, 9];

    db.put_into_collection("c", "k", &v1).unwrap();
    db.put_into_collection("c", "k", &v2).unwrap();

    assert_eq!(db.collection_size("c").unwrap(), 1);
    assert_eq!(db.get_from_collection("c", "k").unwrap(), v2);
    let rows = db.list_collection("c").unwrap();
    assert_eq!(rows.len(), 1);
    assert_eq!(rows[0].0, "k");
    assert_eq!(rows[0].1, v2);
}

#[test]
fn delete_is_idempotent() {
    let tdir = tempfile::tempdir().unwrap();
    let mut db = temp_db(&tdir);
    db.put_into_collection("c", "kept", &vec![1u8]).unwrap();

    // deleting a key that has no row succeeds and changes nothing
    db.del_from_collection("c", "missing").unwrap();
    assert_eq!(db.collection_size("c").unwrap(), 1);

    db.del_from_collection("c", "kept").unwrap();
    assert_eq!(db.collection_size("c").unwrap(), 0);
    // and deleting it again still succeeds
    db.del_from_collection("c", "kept").unwrap();
    assert_eq!(db.collection_size("c").unwrap(), 0);
}

#[test]
fn namespaces_are_isolated() {
    let tdir = tempfile::tempdir().unwrap();
    let mut db = temp_db(&tdir);
    db.put_into_collection("X", "k", &vec![7u8]).unwrap();

    assert!(matches!(db.get_from_collection("Y", "k"), Err(DbError::NotFound)));
    assert_eq!(db.collection_size("Y").unwrap(), 0);
    assert!(db.list_collection("Y").unwrap().is_empty());
    assert_eq!(db.collection_size("X").unwrap(), 1);
}

#[test]
fn clear_then_list_is_empty() {
    let tdir = tempfile::tempdir().unwrap();
    let mut db = temp_db(&tdir);
    db.put_into_collection("gone", "a", &vec![1u8]).unwrap();
    db.put_into_collection("gone", "b", &vec![2u8]).unwrap();
    db.put_into_collection("kept", "c", &vec![3u8]).unwrap();

    db.remove_collection("gone").unwrap();

    assert!(db.list_collection("gone").unwrap().is_empty());
    assert_eq!(db.collection_size("gone").unwrap(), 0);
    assert!(matches!(db.get_from_collection("gone", "a"), Err(DbError::NotFound)));
    // the other namespace is untouched
    assert_eq!(db.collection_size("kept").unwrap(), 1);
    assert_eq!(db.get_from_collection("kept", "c").unwrap(), vec![3u8]);
}

#[test]
fn list_collection_returns_every_pair() {
    let tdir = tempfile::tempdir().unwrap();
    let mut db = temp_db(&tdir);
    db.put_into_collection("c", "a", &vec![1u8]).unwrap();
    db.put_into_collection("c", "b", &vec![2u8]).unwrap();
    db.put_into_collection("c", "z", &vec![3u8]).unwrap();

    // each fresh key grew the collection by one
    assert_eq!(db.collection_size("c").unwrap(), 3);

    let mut rows = db.list_collection("c").unwrap();
    rows.sort();
    assert_eq!(
        rows,
        vec![
            ("a".to_string(), vec![1u8]),
            ("b".to_string(), vec![2u8]),
            ("z".to_string(), vec![3u8]),
        ]
    );
}

#[test]
fn roundtrip_through_store() {
    let tdir = tempfile::tempdir().unwrap();
    let mut db = temp_db(&tdir);

    // the codec round-trips on its own ...
    let v: f64 = 3.25;
    let encoded = bincode::serialize(&v).unwrap();
    let decoded: f64 = bincode::deserialize(&encoded).unwrap();
    assert_eq!(decoded, v);

    // ... and through the store, both ways
    db.put_into_collection("rt", "v", &encoded).unwrap();
    let back: f64 = bincode::deserialize(&db.get_from_collection("rt", "v").unwrap()).unwrap();
    assert_eq!(back, v);

    let s = String::from("a string value");
    let encoded = bincode::serialize(&s).unwrap();
    db.commit_checkpoint("rt", &encoded).unwrap();
    let back: String = bincode::deserialize(&db.restore_from_checkpoint("rt").unwrap()).unwrap();
    assert_eq!(back, s);
}

#[test]
fn save_model_results_touches_neither_core_table() {
    let tdir = tempfile::tempdir().unwrap();
    let mut db = temp_db(&tdir);
    db.put_into_collection("c", "k", &vec![1u8]).unwrap();
    db.commit_checkpoint("g", &vec![2u8]).unwrap();

    save_model_results(&mut db, &vec![5u8, 6]).unwrap();
    assert_eq!(db.collection_size("c").unwrap(), 1);
    assert_eq!(db.get_number_of_checkpoints("g").unwrap(), 1);

    // the properties row is keyed by a fixed pair, so a second save
    // collides, and the error says what failed where
    match save_model_results(&mut db, &vec![7u8]) {
        Err(DbError::Store { operation, url, .. }) => {
            assert_eq!(operation, "save_model_results");
            assert_eq!(url, db.database_url());
        },
        other => panic!("expected a store error, got {:?}", other),
    }
}
