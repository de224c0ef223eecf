//! A generic persistence layer over one embedded SQLite database: values are
//! checkpointed as an ordered history under a logical group key, and stored
//! as named items inside named collections with insert-or-replace semantics.
//!
//! The library works on already-serialized values (byte sequences); callers
//! pair it with whatever codec they use. Every operation's effect is stated
//! against two models of the store: the checkpoint ledger as a sequence of
//! (key, data) rows in commit order, and the collection table as a map from
//! (collection, key) to data.

use vstd::prelude::*;

mod store;
pub mod checkpoint;
pub mod collection;
pub mod models;

verus! {

use vstd::string::StringExecFns;
use crate::store::{Conn, ckpt_log, kv_map, prop_rows, establish_conn, init_schema};

/// Everything that can go wrong in this layer. No error is ever swallowed:
/// each operation returns a result the caller must handle.
#[derive(Debug)]
pub enum DbError {
    /// The store could not be opened or its schema could not be applied.
    Connection { detail: String },
    /// A read or write against the store failed, with the operation, the
    /// collection and key it was about (empty when the operation has none),
    /// the store location, and the engine's message.
    Store { operation: String, collection: String, key: String, url: String, detail: String },
    /// No row matches the requested (collection, key).
    NotFound,
    /// A checkpoint index resolved outside the available history.
    Range { requested: i32, available: i64 },
    /// Stored bytes failed to decode to the expected type. This layer never
    /// decodes, so only the typed codec glue around it reports this.
    Codec { detail: String },
}

/// Build a store error that carries its context: the failed operation, the
/// collection and key it was about, the store location, and the engine's
/// message.
pub(crate) fn store_error(op: &str, coll: &str, k: &str, loc: &str, detail: String) -> (r:
    DbError)
    ensures
        (r matches DbError::Store { operation: o2, collection: c2, key: k2, url: u2, detail: d2 }
            && o2@ == op@ && c2@ == coll@ && k2@ == k@ && u2@ == loc@ && d2 == detail),
{
    DbError::Store {
        operation: String::from_str(op),
        collection: String::from_str(coll),
        key: String::from_str(k),
        url: String::from_str(loc),
        detail,
    }
}

/// The handle owning the single connection to the embedded store.
pub struct DbConnection {
    database_url: String,
    connection: Conn,
}

impl DbConnection {
    /// The checkpoint ledger: all (group key, data) rows in commit order.
    pub closed spec fn ckpts(self) -> Seq<(Seq<char>, Seq<u8>)> {
        ckpt_log(self.connection)
    }

    /// The collection table: data keyed by (collection name, item key).
    pub closed spec fn kv(self) -> Map<(Seq<char>, Seq<char>), Seq<u8>> {
        kv_map(self.connection)
    }

    /// The properties table: data keyed by (model id, molecule id).
    pub closed spec fn props(self) -> Map<(i32, i32), Seq<u8>> {
        prop_rows(self.connection)
    }

    /// Where the store lives.
    pub closed spec fn url(self) -> Seq<char> {
        self.database_url@
    }

    /// Connect to the database at `database_url`, creating it if missing,
    /// and apply the schema. No partial-open state is retained on failure.
    pub fn connect(database_url: &str) -> (r: Result<DbConnection, DbError>)
        ensures
            r matches Ok(db) ==> db.url() == database_url@ && db.kv().dom().finite(),
            r matches Err(e) ==> e is Connection,
    {
        let mut conn = match establish_conn(database_url) {
            Ok(conn) => conn,
            Err(detail) => {
                return Err(DbError::Connection { detail });
            },
        };
        match init_schema(&mut conn) {
            Ok(()) => Ok(
                DbConnection { database_url: String::from_str(database_url), connection: conn },
            ),
            Err(detail) => Err(DbError::Connection { detail }),
        }
    }

    /// Show the database url this handle was opened with.
    pub fn database_url(&self) -> (r: &str)
        ensures
            r@ == self.url(),
    {
        self.database_url.as_str()
    }
}

} // verus!
