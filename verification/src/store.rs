//! The trusted boundary around the embedded SQLite store.
//!
//! Everything the library persists lives in two tables of one SQLite
//! database, reached through diesel. This module holds the connection and
//! the wrappers that run one SQL statement each. The two tables are modelled
//! by two uninterpreted spec functions: `ckpt_log`, the `checkpoints` table
//! as a sequence of (key, data) rows in insertion order (its `id` column is
//! `AUTOINCREMENT`, so `ORDER BY id` is insertion order), and `kv_map`, the
//! `kvstore` table as a map from (collection, key) to data (the table has
//! `UNIQUE(collection, key) ON CONFLICT REPLACE`, so at most one row per
//! pair exists). A third, `prop_rows`, models the out-of-scope `properties`
//! table the same way. Each wrapper's contract states what its statement
//! does to those models; nothing here is verified, only believed.
//!
//! The models are functions of the connection value, so the contracts hold
//! only while each database file is reached through exactly one live
//! connection in one process: open one handle per file, and drop a handle
//! before another connection to the same file is made. They also assume the
//! tables carry this module's schema: a `kvstore` table that predates it
//! without the unique constraint is kept as it is by `IF NOT EXISTS` and
//! falls outside the model.

use vstd::prelude::*;

verus! {

use diesel::connection::SimpleConnection;
use diesel::Connection;
use diesel::RunQueryDsl;

/// The single connection to the embedded store, guarded by a mutex so that
/// each statement has exclusive access for its full duration.
#[verifier::external_body]
pub struct Conn {
    inner: std::sync::Mutex<diesel::SqliteConnection>,
}

/// The `checkpoints` table as a sequence of (key, data) rows in insertion
/// order; empty when the table does not exist yet.
pub uninterp spec fn ckpt_log(c: Conn) -> Seq<(Seq<char>, Seq<u8>)>;

/// The `kvstore` table as a map from (collection, key) to data; empty when
/// the table does not exist yet.
pub uninterp spec fn kv_map(c: Conn) -> Map<(Seq<char>, Seq<char>), Seq<u8>>;

/// The `properties` table as a map from (model id, molecule id) to data;
/// empty when the table does not exist yet.
pub uninterp spec fn prop_rows(c: Conn) -> Map<(i32, i32), Seq<u8>>;

/// The schema, applied at every open. `IF NOT EXISTS` keeps existing rows,
/// and `synchronous = OFF` trades crash safety against power loss for write
/// throughput, a fixed policy of this store.
const SCHEMA_SQL: &'static str = "
PRAGMA synchronous = OFF;
CREATE TABLE IF NOT EXISTS checkpoints (
    id INTEGER PRIMARY KEY AUTOINCREMENT,
    key TEXT NOT NULL,
    data BLOB NOT NULL,
    ctime TEXT NOT NULL DEFAULT CURRENT_TIMESTAMP,
    mtime TEXT NOT NULL DEFAULT CURRENT_TIMESTAMP
);
CREATE TABLE IF NOT EXISTS kvstore (
    id INTEGER PRIMARY KEY AUTOINCREMENT,
    collection TEXT NOT NULL,
    key TEXT NOT NULL,
    data BLOB NOT NULL,
    ctime TEXT NOT NULL DEFAULT CURRENT_TIMESTAMP,
    mtime TEXT NOT NULL DEFAULT CURRENT_TIMESTAMP,
    UNIQUE(collection, key) ON CONFLICT REPLACE
);
CREATE TABLE IF NOT EXISTS models (
    id INTEGER PRIMARY KEY AUTOINCREMENT,
    name TEXT NOT NULL,
    ctime TEXT NOT NULL DEFAULT CURRENT_TIMESTAMP,
    mtime TEXT NOT NULL DEFAULT CURRENT_TIMESTAMP
);
CREATE TABLE IF NOT EXISTS molecules (
    id INTEGER PRIMARY KEY AUTOINCREMENT,
    name TEXT NOT NULL,
    data BLOB NOT NULL,
    ctime TEXT NOT NULL DEFAULT CURRENT_TIMESTAMP,
    mtime TEXT NOT NULL DEFAULT CURRENT_TIMESTAMP
);
CREATE TABLE IF NOT EXISTS properties (
    model_id INTEGER NOT NULL,
    molecule_id INTEGER NOT NULL,
    data BLOB NOT NULL,
    ctime TEXT NOT NULL DEFAULT CURRENT_TIMESTAMP,
    mtime TEXT NOT NULL DEFAULT CURRENT_TIMESTAMP,
    PRIMARY KEY(model_id, molecule_id)
);
";

/// Relies on diesel's `SqliteConnection::establish`: opens (creating it if
/// missing) the SQLite database at `url`, or reports a connection error.
/// The models of a fresh connection are whatever was persisted at `url`;
/// a table holds finitely many rows, whatever is on disk.
#[verifier::external_body]
pub fn establish_conn(url: &str) -> (r: Result<Conn, String>)
    ensures
        r matches Ok(c) ==> kv_map(c).dom().finite(),
{
    match diesel::SqliteConnection::establish(url) {
        Ok(conn) => Ok(Conn { inner: std::sync::Mutex::new(conn) }),
        Err(e) => Err(e.to_string()),
    }
}

/// Relies on diesel's `SimpleConnection::batch_execute` running `SCHEMA_SQL`:
/// a pragma and `CREATE TABLE IF NOT EXISTS` statements change no rows, so
/// both table models are left as they were.
#[verifier::external_body]
pub fn init_schema(c: &mut Conn) -> (r: Result<(), String>)
    ensures
        ckpt_log(*final(c)) == ckpt_log(*old(c)),
        kv_map(*final(c)) == kv_map(*old(c)),
        prop_rows(*final(c)) == prop_rows(*old(c)),
{
    let mut guard = c.inner.lock().unwrap_or_else(|e| e.into_inner());
    match guard.batch_execute(SCHEMA_SQL) {
        Ok(()) => Ok(()),
        Err(e) => Err(e.to_string()),
    }
}

/// Relies on diesel's `sql_query` running a single `INSERT` into
/// `checkpoints`: on success exactly one row (key, data) is appended, and
/// the `kvstore` table is untouched; a failed single statement changes
/// nothing (SQLite statement atomicity).
#[verifier::external_body]
pub fn insert_ckpt(c: &mut Conn, key: &str, data: &[u8]) -> (r: Result<(), String>)
    ensures
        r is Ok ==> ckpt_log(*final(c)) == ckpt_log(*old(c)).push((key@, data@))
            && kv_map(*final(c)) == kv_map(*old(c)),
        r is Err ==> ckpt_log(*final(c)) == ckpt_log(*old(c)) && kv_map(*final(c)) == kv_map(
            *old(c),
        ),
{
    let mut guard = c.inner.lock().unwrap_or_else(|e| e.into_inner());
    let r = diesel::sql_query("INSERT INTO checkpoints (key, data) VALUES (?, ?)")
        .bind::<diesel::sql_types::Text, _>(key)
        .bind::<diesel::sql_types::Binary, _>(data)
        .execute(&mut *guard);
    match r {
        Ok(_) => Ok(()),
        Err(e) => Err(e.to_string()),
    }
}

/// Relies on diesel's `select` of `COUNT(*) FROM checkpoints WHERE key = ?`:
/// the count of rows whose key matches, which is the length of the filtered
/// model sequence.
#[verifier::external_body]
pub fn count_ckpts(c: &Conn, key: &str) -> (r: Result<i64, String>)
    ensures
        r matches Ok(n) ==> n as int == crate::checkpoint::ckpts_for(ckpt_log(*c), key@).len()
            as int,
{
    let mut guard = c.inner.lock().unwrap_or_else(|e| e.into_inner());
    let r = diesel::select(
        diesel::dsl::sql::<diesel::sql_types::BigInt>("COUNT(*) FROM checkpoints WHERE key = ")
            .bind::<diesel::sql_types::Text, _>(key),
    )
    .get_result::<i64>(&mut *guard);
    match r {
        Ok(n) => Ok(n),
        Err(e) => Err(e.to_string()),
    }
}

/// Relies on diesel's `select` of
/// `data FROM checkpoints WHERE key = ? ORDER BY id LIMIT 1 OFFSET ?`:
/// the data of the `k`-th oldest row with that key (`id` is monotonic, so
/// `ORDER BY id` is insertion order).
#[verifier::external_body]
pub fn ckpt_data_at(c: &Conn, key: &str, k: i64) -> (r: Result<Vec<u8>, String>)
    requires
        k >= 0,
        (k as int) < crate::checkpoint::ckpts_for(ckpt_log(*c), key@).len() as int,
    ensures
        r matches Ok(d) ==> d@ == crate::checkpoint::ckpts_for(ckpt_log(*c), key@)[k as int],
{
    let mut guard = c.inner.lock().unwrap_or_else(|e| e.into_inner());
    let r = diesel::select(
        diesel::dsl::sql::<diesel::sql_types::Binary>("data FROM checkpoints WHERE key = ")
            .bind::<diesel::sql_types::Text, _>(key)
            .sql(" ORDER BY id LIMIT 1 OFFSET ")
            .bind::<diesel::sql_types::BigInt, _>(k),
    )
    .get_result::<Vec<u8>>(&mut *guard);
    match r {
        Ok(d) => Ok(d),
        Err(e) => Err(e.to_string()),
    }
}

/// Relies on diesel's `select` of
/// `ctime FROM checkpoints WHERE key = ? ORDER BY id`: one creation
/// timestamp per matching row, oldest first. The timestamps themselves are
/// store-managed clock readings, so nothing is stated of their contents.
#[verifier::external_body]
pub fn list_ckpt_times(c: &Conn, key: &str) -> (r: Result<Vec<String>, String>)
    ensures
        r matches Ok(v) ==> v@.len() == crate::checkpoint::ckpts_for(ckpt_log(*c), key@).len(),
{
    let mut guard = c.inner.lock().unwrap_or_else(|e| e.into_inner());
    let r = diesel::select(
        diesel::dsl::sql::<diesel::sql_types::Text>("ctime FROM checkpoints WHERE key = ")
            .bind::<diesel::sql_types::Text, _>(key)
            .sql(" ORDER BY id"),
    )
    .load::<String>(&mut *guard);
    match r {
        Ok(v) => Ok(v),
        Err(e) => Err(e.to_string()),
    }
}

/// Relies on diesel's `sql_query` running a single `INSERT` into `kvstore`,
/// whose `UNIQUE(collection, key) ON CONFLICT REPLACE` constraint makes the
/// insert replace any existing row of the same (collection, key): on
/// success the map holds exactly this entry for the pair, and the ledger is
/// untouched; a failed single statement changes nothing (SQLite statement
/// atomicity).
#[verifier::external_body]
pub fn kv_put(c: &mut Conn, coll: &str, key: &str, data: &[u8]) -> (r: Result<(), String>)
    ensures
        r is Ok ==> kv_map(*final(c)) == kv_map(*old(c)).insert((coll@, key@), data@)
            && ckpt_log(*final(c)) == ckpt_log(*old(c)),
        r is Err ==> kv_map(*final(c)) == kv_map(*old(c)) && ckpt_log(*final(c)) == ckpt_log(
            *old(c),
        ),
{
    let mut guard = c.inner.lock().unwrap_or_else(|e| e.into_inner());
    let r = diesel::sql_query("INSERT INTO kvstore (collection, key, data) VALUES (?, ?, ?)")
        .bind::<diesel::sql_types::Text, _>(coll)
        .bind::<diesel::sql_types::Text, _>(key)
        .bind::<diesel::sql_types::Binary, _>(data)
        .execute(&mut *guard);
    match r {
        Ok(_) => Ok(()),
        Err(e) => Err(e.to_string()),
    }
}

/// Relies on diesel's `select` of
/// `data FROM kvstore WHERE collection = ? AND key = ?`: the data of the
/// one matching row, or `None` when no row matches (diesel reports that as
/// `Error::NotFound`).
#[verifier::external_body]
pub fn kv_get(c: &Conn, coll: &str, key: &str) -> (r: Result<Option<Vec<u8>>, String>)
    ensures
        r matches Ok(Some(d)) ==> kv_map(*c).dom().contains((coll@, key@)) && d@ == kv_map(
            *c,
        )[(coll@, key@)],
        r matches Ok(None) ==> !kv_map(*c).dom().contains((coll@, key@)),
{
    let mut guard = c.inner.lock().unwrap_or_else(|e| e.into_inner());
    let r = diesel::select(
        diesel::dsl::sql::<diesel::sql_types::Binary>("data FROM kvstore WHERE collection = ")
            .bind::<diesel::sql_types::Text, _>(coll)
            .sql(" AND key = ")
            .bind::<diesel::sql_types::Text, _>(key),
    )
    .get_result::<Vec<u8>>(&mut *guard);
    match r {
        Ok(d) => Ok(Some(d)),
        Err(diesel::result::Error::NotFound) => Ok(None),
        Err(e) => Err(e.to_string()),
    }
}

/// Relies on diesel's `sql_query` running a single `DELETE` on one
/// (collection, key): on success that pair has no row (deleting a missing
/// pair succeeds and deletes nothing), everything else is untouched; a
/// failed single statement changes nothing.
#[verifier::external_body]
pub fn kv_delete(c: &mut Conn, coll: &str, key: &str) -> (r: Result<(), String>)
    ensures
        r is Ok ==> kv_map(*final(c)) == kv_map(*old(c)).remove((coll@, key@)) && ckpt_log(
            *final(c),
        ) == ckpt_log(*old(c)),
        r is Err ==> kv_map(*final(c)) == kv_map(*old(c)) && ckpt_log(*final(c)) == ckpt_log(
            *old(c),
        ),
{
    let mut guard = c.inner.lock().unwrap_or_else(|e| e.into_inner());
    let r = diesel::sql_query("DELETE FROM kvstore WHERE collection = ? AND key = ?")
        .bind::<diesel::sql_types::Text, _>(coll)
        .bind::<diesel::sql_types::Text, _>(key)
        .execute(&mut *guard);
    match r {
        Ok(_) => Ok(()),
        Err(e) => Err(e.to_string()),
    }
}

/// Relies on diesel's `sql_query` running a single `DELETE` of every row of
/// one collection: on success that collection has no rows and every other
/// collection is untouched; a failed single statement changes nothing.
#[verifier::external_body]
pub fn kv_clear(c: &mut Conn, coll: &str) -> (r: Result<(), String>)
    ensures
        r is Ok ==> kv_map(*final(c)) == crate::collection::cleared(kv_map(*old(c)), coll@)
            && ckpt_log(*final(c)) == ckpt_log(*old(c)),
        r is Err ==> kv_map(*final(c)) == kv_map(*old(c)) && ckpt_log(*final(c)) == ckpt_log(
            *old(c),
        ),
{
    let mut guard = c.inner.lock().unwrap_or_else(|e| e.into_inner());
    let r = diesel::sql_query("DELETE FROM kvstore WHERE collection = ?")
        .bind::<diesel::sql_types::Text, _>(coll)
        .execute(&mut *guard);
    match r {
        Ok(_) => Ok(()),
        Err(e) => Err(e.to_string()),
    }
}

/// Relies on diesel's `select` of
/// `COUNT(*) FROM kvstore WHERE collection = ?`: the number of live rows of
/// that collection — one per (collection, key) pair, by the table's unique
/// constraint, and finitely many, as in any table.
#[verifier::external_body]
pub fn kv_count(c: &Conn, coll: &str) -> (r: Result<i64, String>)
    ensures
        r matches Ok(n) ==> n as int == crate::collection::coll_pairs(kv_map(*c), coll@).len()
            as int,
{
    let mut guard = c.inner.lock().unwrap_or_else(|e| e.into_inner());
    let r = diesel::select(
        diesel::dsl::sql::<diesel::sql_types::BigInt>("COUNT(*) FROM kvstore WHERE collection = ")
            .bind::<diesel::sql_types::Text, _>(coll),
    )
    .get_result::<i64>(&mut *guard);
    match r {
        Ok(n) => Ok(n),
        Err(e) => Err(e.to_string()),
    }
}

/// Relies on diesel's `select` of
/// `key, data FROM kvstore WHERE collection = ?`: one (key, data) row per
/// live pair of that collection — every pair appears, keys are unique by
/// the table's constraint, and each data is that pair's stored data.
#[verifier::external_body]
pub fn kv_list(c: &Conn, coll: &str) -> (r: Result<Vec<(String, Vec<u8>)>, String>)
    ensures
        r matches Ok(v) ==> {
            &&& forall|i: int|
                0 <= i < v@.len() ==> kv_map(*c).dom().contains((coll@, (#[trigger] v@[i]).0@))
                    && v@[i].1@ == kv_map(*c)[(coll@, v@[i].0@)]
            &&& forall|i: int, j: int|
                0 <= i < j < v@.len() ==> (#[trigger] v@[i]).0@ != (#[trigger] v@[j]).0@
            &&& forall|k: Seq<char>|
                #[trigger] kv_map(*c).dom().contains((coll@, k)) ==> exists|i: int|
                    0 <= i < v@.len() && (#[trigger] v@[i]).0@ == k
            &&& v@.len() == crate::collection::coll_pairs(kv_map(*c), coll@).len()
        },
{
    let mut guard = c.inner.lock().unwrap_or_else(|e| e.into_inner());
    let r = diesel::select(
        diesel::dsl::sql::<
            (diesel::sql_types::Text, diesel::sql_types::Binary),
        >("key, data FROM kvstore WHERE collection = ").bind::<diesel::sql_types::Text, _>(coll),
    )
    .load::<(String, Vec<u8>)>(&mut *guard);
    match r {
        Ok(v) => Ok(v),
        Err(e) => Err(e.to_string()),
    }
}

/// Relies on diesel's `sql_query` running a single `INSERT` into the
/// `properties` table, which neither the checkpoint ledger nor the
/// collection table shares a row with: those two models are left as they
/// were, whether the insert succeeds or fails. The table's primary key is
/// (model_id, molecule_id), so the plain insert succeeds only when that
/// pair had no row, and then adds exactly it; a failed single statement
/// changes nothing.
#[verifier::external_body]
pub fn insert_properties(c: &mut Conn, model_id: i32, molecule_id: i32, data: &[u8]) -> (r:
    Result<(), String>)
    ensures
        kv_map(*final(c)) == kv_map(*old(c)),
        ckpt_log(*final(c)) == ckpt_log(*old(c)),
        r is Ok ==> !prop_rows(*old(c)).dom().contains((model_id, molecule_id)) && prop_rows(
            *final(c),
        ) == prop_rows(*old(c)).insert((model_id, molecule_id), data@),
        r is Err ==> prop_rows(*final(c)) == prop_rows(*old(c)),
{
    let mut guard = c.inner.lock().unwrap_or_else(|e| e.into_inner());
    let r = diesel::sql_query("INSERT INTO properties (model_id, molecule_id, data) VALUES (?, ?, ?)")
        .bind::<diesel::sql_types::Integer, _>(model_id)
        .bind::<diesel::sql_types::Integer, _>(molecule_id)
        .bind::<diesel::sql_types::Binary, _>(data)
        .execute(&mut *guard);
    match r {
        Ok(_) => Ok(()),
        Err(e) => Err(e.to_string()),
    }
}

} // verus!
