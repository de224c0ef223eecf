//! The checkpoint ledger: an append-only ordered history of serialized
//! snapshots per logical group key, with indexed and negative-indexed
//! restore. Committing never overwrites; repeated commits accumulate
//! history. A non-negative restore index is a 0-based position from the
//! oldest checkpoint; a negative index counts from the newest (`-1` is the
//! most recent).

use vstd::prelude::*;

verus! {

use crate::DbConnection;
use crate::DbError;
use crate::store;
use crate::store::ckpt_log;
use crate::store_error;

/// The history of one group key: the data of every ledger row whose key is
/// `key`, oldest first.
pub open spec fn ckpts_for(log: Seq<(Seq<char>, Seq<u8>)>, key: Seq<char>) -> Seq<Seq<u8>>
    decreases log.len(),
{
    if log.len() == 0 {
        Seq::empty()
    } else {
        let prefix = ckpts_for(log.drop_last(), key);
        if log.last().0 == key {
            prefix.push(log.last().1)
        } else {
            prefix
        }
    }
}

/// Where index `n` points in a history of `count` checkpoints: a negative
/// `n` counts back from the newest, so the effective position is `count + n`.
pub open spec fn resolved_slot(count: int, n: int) -> int {
    if n < 0 {
        count + n
    } else {
        n
    }
}

/// Whether index `n` resolves to an existing position. When `count == 0` no
/// index is in range.
pub open spec fn slot_in_range(count: int, n: int) -> bool {
    0 <= resolved_slot(count, n) < count
}

/// Resolve checkpoint index `n` against a history of `count` rows, allowing
/// a negative `n` to count from the newest; `None` exactly when the index
/// is out of range.
pub fn resolve_checkpoint_slot(count: i64, n: i32) -> (r: Option<i64>)
    requires
        count >= 0,
    ensures
        r is Some <==> slot_in_range(count as int, n as int),
        r matches Some(k) ==> k as int == resolved_slot(count as int, n as int),
{
    if n >= 0 {
        if (n as i64) < count {
            Some(n as i64)
        } else {
            None
        }
    } else {
        let k = count + (n as i64);
        if k >= 0 {
            Some(k)
        } else {
            None
        }
    }
}

/// Appending a row to the ledger extends the history of its own group key
/// by that row's data and leaves every other group key's history unchanged.
pub proof fn lemma_ckpts_for_push(
    log: Seq<(Seq<char>, Seq<u8>)>,
    key: Seq<char>,
    row: (Seq<char>, Seq<u8>),
)
    ensures
        row.0 == key ==> ckpts_for(log.push(row), key) == ckpts_for(log, key).push(row.1),
        row.0 != key ==> ckpts_for(log.push(row), key) == ckpts_for(log, key),
{
    let l2 = log.push(row);
    assert(l2.drop_last() =~= log);
    assert(l2.last() == row);
}

/// Checkpoint ordering and negative indexing: committing `a`, `b`, `c` in
/// that order under a group key with no earlier history gives the history
/// `[a, b, c]`, where index `-1` selects `c`, `0` selects `a`, `1` selects
/// `b`, and both `3` and `-4` are out of range.
pub proof fn lemma_checkpoint_ordering(
    log: Seq<(Seq<char>, Seq<u8>)>,
    key: Seq<char>,
    a: Seq<u8>,
    b: Seq<u8>,
    c: Seq<u8>,
)
    requires
        ckpts_for(log, key).len() == 0,
    ensures
        ckpts_for(log.push((key, a)).push((key, b)).push((key, c)), key) == seq![a, b, c],
        ckpts_for(log.push((key, a)).push((key, b)).push((key, c)), key)[resolved_slot(3, -1)]
            == c,
        ckpts_for(log.push((key, a)).push((key, b)).push((key, c)), key)[resolved_slot(3, 0)]
            == a,
        ckpts_for(log.push((key, a)).push((key, b)).push((key, c)), key)[resolved_slot(3, 1)]
            == b,
        !slot_in_range(3, 3),
        !slot_in_range(3, -4),
{
    let l1 = log.push((key, a));
    let l2 = l1.push((key, b));
    let l3 = l2.push((key, c));
    lemma_ckpts_for_push(log, key, (key, a));
    lemma_ckpts_for_push(l1, key, (key, b));
    lemma_ckpts_for_push(l2, key, (key, c));
    assert(ckpts_for(log, key) =~= Seq::<Seq<u8>>::empty());
    assert(ckpts_for(l3, key) =~= seq![a, b, c]);
}

impl DbConnection {
    /// Append one checkpoint under `ckpt_key`. Never overwrites: on success
    /// the ledger grows by exactly this row, and the collection table is
    /// untouched; on failure nothing changes.
    pub fn commit_checkpoint(&mut self, ckpt_key: &str, data: &[u8]) -> (r: Result<(), DbError>)
        ensures
            final(self).url() == old(self).url(),
            final(self).kv() == old(self).kv(),
            r is Ok ==> final(self).ckpts() == old(self).ckpts().push((ckpt_key@, data@)),
            r matches Err(e) ==> final(self).ckpts() == old(self).ckpts() && e is Store,
            r matches Err(DbError::Store { operation: eo, key: ek, url: eu, .. }) ==> eo@
                == "commit_checkpoint"@ && ek@ == ckpt_key@ && eu@ == old(self).url(),
    {
        match store::insert_ckpt(&mut self.connection, ckpt_key, data) {
            Ok(()) => Ok(()),
            Err(detail) => Err(
                store_error("commit_checkpoint", "", ckpt_key, self.database_url.as_str(), detail),
            ),
        }
    }

    /// The number of checkpoints committed under `ckpt_key`.
    pub fn get_number_of_checkpoints(&self, ckpt_key: &str) -> (r: Result<i64, DbError>)
        ensures
            r matches Ok(n) ==> n as int == ckpts_for(self.ckpts(), ckpt_key@).len() as int,
            r matches Err(e) ==> e is Store,
            r matches Err(DbError::Store { operation: eo, key: ek, url: eu, .. }) ==> eo@
                == "get_number_of_checkpoints"@ && ek@ == ckpt_key@ && eu@ == self.url(),
    {
        match store::count_ckpts(&self.connection, ckpt_key) {
            Ok(n) => Ok(n),
            Err(detail) => Err(
                store_error(
                    "get_number_of_checkpoints",
                    "",
                    ckpt_key,
                    self.database_url.as_str(),
                    detail,
                ),
            ),
        }
    }

    /// Load the serialized data of checkpoint `n` under `ckpt_key`, where a
    /// negative `n` counts from the newest (`-1` is the most recent). An
    /// index outside the available history is reported as a range error,
    /// never a panic — also when the history is empty.
    pub fn from_checkpoint_n(&self, ckpt_key: &str, n: i32) -> (r: Result<Vec<u8>, DbError>)
        ensures
            r matches Ok(d) ==> slot_in_range(
                ckpts_for(self.ckpts(), ckpt_key@).len() as int,
                n as int,
            ) && d@ == ckpts_for(self.ckpts(), ckpt_key@)[resolved_slot(
                ckpts_for(self.ckpts(), ckpt_key@).len() as int,
                n as int,
            )],
            !slot_in_range(ckpts_for(self.ckpts(), ckpt_key@).len() as int, n as int) ==> r
                is Err,
            r matches Err(e) ==> e is Range || e is Store,
            r matches Err(DbError::Range { requested, available }) ==> !slot_in_range(
                ckpts_for(self.ckpts(), ckpt_key@).len() as int,
                n as int,
            ) && requested == n && available as int == ckpts_for(self.ckpts(), ckpt_key@).len()
                as int,
            r matches Err(DbError::Store { operation: eo, key: ek, url: eu, .. }) ==> eo@
                == "from_checkpoint_n"@ && ek@ == ckpt_key@ && eu@ == self.url(),
    {
        let count = match store::count_ckpts(&self.connection, ckpt_key) {
            Ok(c) => c,
            Err(detail) => {
                return Err(
                    store_error(
                        "from_checkpoint_n",
                        "",
                        ckpt_key,
                        self.database_url.as_str(),
                        detail,
                    ),
                );
            },
        };
        let k = match resolve_checkpoint_slot(count, n) {
            Some(k) => k,
            None => {
                return Err(DbError::Range { requested: n, available: count });
            },
        };
        match store::ckpt_data_at(&self.connection, ckpt_key, k) {
            Ok(d) => Ok(d),
            Err(detail) => Err(
                store_error("from_checkpoint_n", "", ckpt_key, self.database_url.as_str(), detail),
            ),
        }
    }

    /// Load the serialized data of the most recent checkpoint under
    /// `ckpt_key`: the same as `from_checkpoint_n` with index `-1`.
    pub fn restore_from_checkpoint(&self, ckpt_key: &str) -> (r: Result<Vec<u8>, DbError>)
        ensures
            r matches Ok(d) ==> ckpts_for(self.ckpts(), ckpt_key@).len() > 0 && d@ == ckpts_for(
                self.ckpts(),
                ckpt_key@,
            ).last(),
            ckpts_for(self.ckpts(), ckpt_key@).len() == 0 ==> r is Err,
            r matches Err(e) ==> e is Range || e is Store,
            r matches Err(DbError::Store { key: ek, url: eu, .. }) ==> ek@ == ckpt_key@ && eu@
                == self.url(),
    {
        self.from_checkpoint_n(ckpt_key, -1)
    }

    /// List the available checkpoints under `ckpt_key`: one (slot, creation
    /// time) pair per checkpoint, slots counting up from 0, oldest first.
    pub fn list_checkpoints(&self, ckpt_key: &str) -> (r: Result<
        Vec<(usize, String)>,
        DbError,
    >)
        ensures
            r matches Ok(v) ==> v@.len() == ckpts_for(self.ckpts(), ckpt_key@).len() && (forall|
                j: int,
            |
                0 <= j < v@.len() ==> (#[trigger] v@[j]).0 as int == j),
            r matches Err(e) ==> e is Store,
            r matches Err(DbError::Store { operation: eo, key: ek, url: eu, .. }) ==> eo@
                == "list_checkpoints"@ && ek@ == ckpt_key@ && eu@ == self.url(),
    {
        let times = match store::list_ckpt_times(&self.connection, ckpt_key) {
            Ok(t) => t,
            Err(detail) => {
                return Err(
                    store_error(
                        "list_checkpoints",
                        "",
                        ckpt_key,
                        self.database_url.as_str(),
                        detail,
                    ),
                );
            },
        };
        let mut out: Vec<(usize, String)> = Vec::new();
        let mut i: usize = 0;
        while i < times.len()
            invariant
                i as int <= times@.len(),
                out@.len() == i as int,
                forall|j: int| 0 <= j < out@.len() ==> (#[trigger] out@[j]).0 as int == j,
            decreases times@.len() - i as int,
        {
            let t = times[i].clone();
            out.push((i, t));
            i = i + 1;
        }
        Ok(out)
    }
}

/// A checkpoint handle for resuming work later: a database location, an
/// optional checkpoint slot to restore from (the default is the most
/// recent), and the connection once one is made.
pub struct CheckpointDb {
    chk_file: Option<String>,
    chk_slot: Option<i32>,
    db_connection: Option<DbConnection>,
}

impl Default for CheckpointDb {
    /// A handle with no location, no chosen slot and no connection.
    fn default() -> (r: CheckpointDb)
        ensures
            r.file_view() is None,
            r.slot_view() is None,
            r.db() is None,
    {
        CheckpointDb { chk_file: None, chk_slot: None, db_connection: None }
    }
}

impl CheckpointDb {
    /// The database location this handle was given, if any.
    pub closed spec fn file_view(self) -> Option<Seq<char>> {
        match self.chk_file {
            Some(f) => Some(f@),
            None => None,
        }
    }

    /// The checkpoint slot this handle restores from, if one was chosen.
    pub closed spec fn slot_view(self) -> Option<i32> {
        self.chk_slot
    }

    /// The connection this handle holds, if any.
    pub closed spec fn db(self) -> Option<DbConnection> {
        self.db_connection
    }

    /// The index this handle restores from: its configured slot, or `-1`
    /// (the most recent checkpoint) when none is set.
    pub closed spec fn effective_slot(self) -> int {
        match self.chk_slot {
            Some(n) => n as int,
            None => -1,
        }
    }

    /// Whether this handle holds a connection.
    pub fn has_connection(&self) -> (r: bool)
        ensures
            r == (self.db() is Some),
    {
        self.db_connection.is_some()
    }

    /// The checkpoint slot this handle was configured with, if any.
    pub fn chosen_slot(&self) -> (r: Option<i32>)
        ensures
            r == self.slot_view(),
    {
        self.chk_slot
    }

    /// Construct a checkpoint handle rooted at the database file `d`,
    /// connecting to it at once. A connection failure is returned as the
    /// error instead of ending the process.
    pub fn new(d: &str) -> (r: Result<CheckpointDb, DbError>)
        ensures
            r matches Ok(ck) ==> ck.file_view() == Some(d@) && ck.slot_view() is None && (ck.db()
                matches Some(db) && db.url() == d@),
            r matches Err(e) ==> e is Connection,
    {
        match DbConnection::connect(d) {
            Ok(db) => Ok(
                CheckpointDb {
                    chk_file: Some(String::from_str(d)),
                    chk_slot: None,
                    db_connection: Some(db),
                },
            ),
            Err(e) => Err(e),
        }
    }

    /// Choose checkpoint slot `n` to restore from (0-based from the oldest;
    /// negative counts from the newest).
    pub fn slot(self, n: i32) -> (r: CheckpointDb)
        ensures
            r.file_view() == self.file_view(),
            r.db() == self.db(),
            r.slot_view() == Some(n),
            r.effective_slot() == n as int,
    {
        CheckpointDb { chk_slot: Some(n), ..self }
    }

    /// Connect to the database named by this handle's file, whenever a file
    /// is set; a handle without a file is returned unchanged. A connection
    /// failure is returned as the error instead of ending the process.
    pub fn create(self) -> (r: Result<CheckpointDb, DbError>)
        ensures
            self.file_view() is None ==> (r matches Ok(ck) && ck == self),
            r matches Ok(ck) ==> ck.file_view() == self.file_view() && ck.slot_view()
                == self.slot_view() && (self.file_view() matches Some(f) ==> (ck.db() matches Some(
                db,
            ) && db.url() == f)),
            r matches Err(e) ==> e is Connection,
    {
        let CheckpointDb { chk_file, chk_slot, db_connection } = self;
        match chk_file {
            Some(f) => {
                // release any old connection first: a file must never be
                // reached through two live connections at once
                let _ = db_connection;
                match DbConnection::connect(f.as_str()) {
                    Ok(db) => Ok(
                        CheckpointDb { chk_file: Some(f), chk_slot, db_connection: Some(db) },
                    ),
                    Err(e) => Err(e),
                }
            },
            None => Ok(CheckpointDb { chk_file: None, chk_slot, db_connection }),
        }
    }

    /// Commit one checkpoint under `ckpt_key` into the connected database:
    /// true when committed, false when this handle has no connection.
    pub fn commit(&mut self, ckpt_key: &str, data: &[u8]) -> (r: Result<bool, DbError>)
        ensures
            final(self).file_view() == old(self).file_view(),
            final(self).slot_view() == old(self).slot_view(),
            old(self).db() is None ==> (r matches Ok(b) && b == false && final(self).db()
                is None),
            old(self).db() matches Some(db) ==> (final(self).db() matches Some(db2) && db2.url()
                == db.url() && db2.kv() == db.kv() && (r matches Ok(b) ==> b == true
                && db2.ckpts() == db.ckpts().push((ckpt_key@, data@))) && (r matches Err(e)
                ==> db2.ckpts() == db.ckpts() && e is Store)),
    {
        match &mut self.db_connection {
            Some(db) => {
                match db.commit_checkpoint(ckpt_key, data) {
                    Ok(()) => Ok(true),
                    Err(e) => Err(e),
                }
            },
            None => Ok(false),
        }
    }

    /// Return the serialized data of the checkpoint this handle points at
    /// under `ckpt_key`: its configured slot, or the most recent when none
    /// is set. Demands a connected handle.
    pub fn restored(&self, ckpt_key: &str) -> (r: Result<Vec<u8>, DbError>)
        requires
            self.db() is Some,
        ensures
            self.db() matches Some(db) ==> {
                &&& r matches Ok(d) ==> slot_in_range(
                    ckpts_for(db.ckpts(), ckpt_key@).len() as int,
                    self.effective_slot(),
                ) && d@ == ckpts_for(db.ckpts(), ckpt_key@)[resolved_slot(
                    ckpts_for(db.ckpts(), ckpt_key@).len() as int,
                    self.effective_slot(),
                )]
                &&& !slot_in_range(
                    ckpts_for(db.ckpts(), ckpt_key@).len() as int,
                    self.effective_slot(),
                ) ==> r is Err
                &&& r matches Err(e) ==> e is Range || e is Store
            },
    {
        let n: i32 = match self.chk_slot {
            Some(n) => n,
            None => -1,
        };
        match &self.db_connection {
            Some(db) => db.from_checkpoint_n(ckpt_key, n),
            None => {
                // unreachable: a connected handle is demanded above
                proof {
                    assert(false);
                }
                Err(DbError::NotFound)
            },
        }
    }

    /// Best-effort restore into `data`: a caller-level downgrade of restore
    /// errors to a "did restore" boolean. True exactly when `data` was
    /// overwritten with the checkpoint at this handle's slot (the most
    /// recent when none is set); on every other path — no connection, an
    /// out-of-range slot, or a store failure — `data` is left as the caller
    /// passed it and the outcome is false. The typed layer around this logs
    /// what the downgrade discards.
    pub fn restore(&self, ckpt_key: &str, data: &mut Vec<u8>) -> (r: Result<bool, DbError>)
        ensures
            r is Ok,
            self.db() is None ==> (r matches Ok(b) && b == false && final(data)@ == old(data)@),
            self.db() matches Some(db) ==> {
                &&& r matches Ok(b) && (b ==> slot_in_range(
                    ckpts_for(db.ckpts(), ckpt_key@).len() as int,
                    self.effective_slot(),
                ) && final(data)@ == ckpts_for(db.ckpts(), ckpt_key@)[resolved_slot(
                    ckpts_for(db.ckpts(), ckpt_key@).len() as int,
                    self.effective_slot(),
                )])
                &&& (r matches Ok(b) && !b) ==> final(data)@ == old(data)@
                &&& !slot_in_range(
                    ckpts_for(db.ckpts(), ckpt_key@).len() as int,
                    self.effective_slot(),
                ) ==> (r matches Ok(b) && b == false)
            },
    {
        match &self.db_connection {
            Some(db) => {
                let n: i32 = match self.chk_slot {
                    Some(n) => n,
                    None => -1,
                };
                match db.from_checkpoint_n(ckpt_key, n) {
                    Ok(d) => {
                        *data = d;
                        Ok(true)
                    },
                    Err(_) => Ok(false),
                }
            },
            None => Ok(false),
        }
    }

    /// List the checkpoints under `ckpt_key` in the connected database: one
    /// (slot, creation time) pair per checkpoint, oldest first, or `None`
    /// when this handle has no connection.
    pub fn list(&self, ckpt_key: &str) -> (r: Result<Option<Vec<(usize, String)>>, DbError>)
        ensures
            self.db() is None ==> (r matches Ok(o) && o is None),
            self.db() matches Some(db) ==> {
                &&& r matches Ok(o) ==> (o matches Some(v) && v@.len() == ckpts_for(
                    db.ckpts(),
                    ckpt_key@,
                ).len() && (forall|j: int|
                    0 <= j < v@.len() ==> (#[trigger] v@[j]).0 as int == j))
                &&& r matches Err(e) ==> e is Store
            },
    {
        match &self.db_connection {
            Some(db) => {
                match db.list_checkpoints(ckpt_key) {
                    Ok(v) => Ok(Some(v)),
                    Err(e) => Err(e),
                }
            },
            None => Ok(None),
        }
    }
}

} // verus!
