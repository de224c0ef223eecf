//! Checkpoint ledger behaviour against a real SQLite store.

use gosh_database::checkpoint::resolve_checkpoint_slot;
use gosh_database::DbConnection;
use gosh_database::DbError;

fn temp_db(dir: &tempfile::TempDir) -> DbConnection {
    let path = dir.path().join("test.sqlite");
    DbConnection::connect(path.to_str().unwrap()).unwrap()
}

#[test]
fn test_checkpoint() {
    let tdir = tempfile::tempdir().unwrap();
    let mut db = temp_db(&tdir);
    let key = "TestObject.ckpt";

    // commit checkpoint
    let mut x: f64 = -12.0;
    db.commit_checkpoint(key, &bincode::serialize(&x).unwrap()).unwrap();
    // commit a new checkpoint
    x = 1.0;
    db.commit_checkpoint(key, &bincode::serialize(&x).unwrap()).unwrap();
    // commit a new checkpoint again
    x = 0.0;
    db.commit_checkpoint(key, &bincode::serialize(&x).unwrap()).unwrap();
    assert_eq!(x, 0.0);

    // restore from checkpoint
    assert_eq!(db.get_number_of_checkpoints(key).unwrap(), 3);
    x = bincode::deserialize(&db.restore_from_checkpoint(key).unwrap()).unwrap();
    assert_eq!(x, 0.0);
    x = bincode::deserialize(&db.from_checkpoint_n(key, 0).unwrap()).unwrap();
    assert_eq!(x, -12.0);
    x = bincode::deserialize(&db.from_checkpoint_n(key, 1).unwrap()).unwrap();
    assert_eq!(x, 1.0);
}

#[test]
fn checkpoint_ordering_and_negative_indexing() {
    let tdir = tempfile::tempdir().unwrap();
    let mut db = temp_db(&tdir);
    let key = "order";
    let a = vec![1u8, 1];
    let b = vec![2u8, 2];
    let c = vec![3u8, 3];
    db.commit_checkpoint(key, &a).unwrap();
    db.commit_checkpoint(key, &b).unwrap();
    db.commit_checkpoint(key, &c).unwrap();

    assert_eq!(db.from_checkpoint_n(key, -1).unwrap(), c);
    assert_eq!(db.from_checkpoint_n(key, 0).unwrap(), a);
    assert_eq!(db.from_checkpoint_n(key, 1).unwrap(), b);
    assert_eq!(db.from_checkpoint_n(key, -2).unwrap(), b);
    assert!(matches!(
        db.from_checkpoint_n(key, 3),
        Err(DbError::Range { requested: 3, available: 3 })
    ));
    assert!(matches!(
        db.from_checkpoint_n(key, -4),
        Err(DbError::Range { requested: -4, available: 3 })
    ));
}

#[test]
fn checkpoint_empty_history_is_out_of_range() {
    let tdir = tempfile::tempdir().unwrap();
    let db = temp_db(&tdir);
    assert!(matches!(
        db.restore_from_checkpoint("nothing"),
        Err(DbError::Range { requested: -1, available: 0 })
    ));
    assert!(matches!(
        db.from_checkpoint_n("nothing", 0),
        Err(DbError::Range { requested: 0, available: 0 })
    ));
    assert_eq!(db.get_number_of_checkpoints("nothing").unwrap(), 0);
}

#[test]
fn checkpoint_groups_are_isolated() {
    let tdir = tempfile::tempdir().unwrap();
    let mut db = temp_db(&tdir);
    db.commit_checkpoint("one", &vec![1u8]).unwrap();
    db.commit_checkpoint("two", &vec![2u8]).unwrap();
    db.commit_checkpoint("two", &vec![3u8]).unwrap();

    assert_eq!(db.get_number_of_checkpoints("one").unwrap(), 1);
    assert_eq!(db.get_number_of_checkpoints("two").unwrap(), 2);
    assert_eq!(db.restore_from_checkpoint("one").unwrap(), vec![1u8]);
    assert_eq!(db.restore_from_checkpoint("two").unwrap(), vec![3u8]);
}

#[test]
fn list_checkpoints_slots_count_up() {
    let tdir = tempfile::tempdir().unwrap();
    let mut db = temp_db(&tdir);
    db.commit_checkpoint("listed", &vec![1u8]).unwrap();
    db.commit_checkpoint("listed", &vec![2u8]).unwrap();

    let rows = db.list_checkpoints("listed").unwrap();
    assert_eq!(rows.len(), 2);
    assert_eq!(rows[0].0, 0);
    assert_eq!(rows[1].0, 1);
    // the creation times are store-managed timestamps
    assert!(!rows[0].1.is_empty());
    assert!(!rows[1].1.is_empty());
    assert!(db.list_checkpoints("unlisted").unwrap().is_empty());
}

#[test]
fn resolve_slot_examples() {
    assert_eq!(resolve_checkpoint_slot(3, -1), Some(2));
    assert_eq!(resolve_checkpoint_slot(3, 0), Some(0));
    assert_eq!(resolve_checkpoint_slot(3, 1), Some(1));
    assert_eq!(resolve_checkpoint_slot(3, 2), Some(2));
    assert_eq!(resolve_checkpoint_slot(3, 3), None);
    assert_eq!(resolve_checkpoint_slot(3, -3), Some(0));
    assert_eq!(resolve_checkpoint_slot(3, -4), None);
    // an empty history has no valid index at all
    assert_eq!(resolve_checkpoint_slot(0, 0), None);
    assert_eq!(resolve_checkpoint_slot(0, -1), None);
}

#[test]
fn commits_accumulate_history() {
    let tdir = tempfile::tempdir().unwrap();
    let mut db = temp_db(&tdir);
    let key = "grow";
    for i in 0..5u8 {
        db.commit_checkpoint(key, &vec![i]).unwrap();
        assert_eq!(db.get_number_of_checkpoints(key).unwrap(), i as i64 + 1);
    }
    // the same payload committed twice is stored twice, never replaced
    db.commit_checkpoint(key, &vec![4u8]).unwrap();
    assert_eq!(db.get_number_of_checkpoints(key).unwrap(), 6);
}
