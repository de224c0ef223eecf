//! Keyed collections: namespaced key-value storage with insert-or-replace
//! semantics. A collection is a namespace of replaceable key-to-value rows;
//! at most one live row exists per (collection, key) pair, and queries on
//! one collection never see another collection's items.

use vstd::prelude::*;

verus! {

use crate::DbConnection;
use crate::DbError;
use crate::store;
use crate::store_error;
use vstd::set_lib::lemma_len_subset;

/// The (collection, key) pairs of `m` that belong to collection `c`: the
/// live rows of that namespace.
pub open spec fn coll_pairs(
    m: Map<(Seq<char>, Seq<char>), Seq<u8>>,
    c: Seq<char>,
) -> Set<(Seq<char>, Seq<char>)> {
    Set::new(|p: (Seq<char>, Seq<char>)| m.dom().contains(p) && p.0 == c)
}

/// The collection table with every row of collection `c` removed.
pub open spec fn cleared(
    m: Map<(Seq<char>, Seq<char>), Seq<u8>>,
    c: Seq<char>,
) -> Map<(Seq<char>, Seq<char>), Seq<u8>> {
    Map::new(|p: (Seq<char>, Seq<char>)| m.dom().contains(p) && p.0 != c, |p: (Seq<char>, Seq<char>)| m[p])
}

/// Replace semantics: putting a key twice leaves exactly what one put of
/// the second value leaves — one row for that key, holding the second
/// value.
pub proof fn lemma_put_replaces(
    m: Map<(Seq<char>, Seq<char>), Seq<u8>>,
    c: Seq<char>,
    k: Seq<char>,
    v1: Seq<u8>,
    v2: Seq<u8>,
)
    ensures
        m.insert((c, k), v1).insert((c, k), v2) == m.insert((c, k), v2),
        m.insert((c, k), v1).insert((c, k), v2)[(c, k)] == v2,
        coll_pairs(m.insert((c, k), v1).insert((c, k), v2), c) == coll_pairs(
            m.insert((c, k), v2),
            c,
        ),
{
    assert(m.insert((c, k), v1).insert((c, k), v2) =~= m.insert((c, k), v2));
}

/// Putting a new key grows its collection by exactly one row: the
/// namespace's pairs gain just (c, k), so its size goes up by one.
pub proof fn lemma_put_grows_new_key(
    m: Map<(Seq<char>, Seq<char>), Seq<u8>>,
    c: Seq<char>,
    k: Seq<char>,
    v: Seq<u8>,
)
    requires
        m.dom().finite(),
        !m.dom().contains((c, k)),
    ensures
        coll_pairs(m.insert((c, k), v), c) == coll_pairs(m, c).insert((c, k)),
        coll_pairs(m, c).finite(),
        coll_pairs(m.insert((c, k), v), c).len() == coll_pairs(m, c).len() + 1,
{
    assert(coll_pairs(m, c).subset_of(m.dom()));
    lemma_len_subset(coll_pairs(m, c), m.dom());
    assert(coll_pairs(m.insert((c, k), v), c) =~= coll_pairs(m, c).insert((c, k)));
}

/// Idempotent delete: removing a (collection, key) that has no row changes
/// nothing, so the collection keeps its size.
pub proof fn lemma_delete_idempotent(
    m: Map<(Seq<char>, Seq<char>), Seq<u8>>,
    c: Seq<char>,
    k: Seq<char>,
)
    requires
        !m.dom().contains((c, k)),
    ensures
        m.remove((c, k)) == m,
        coll_pairs(m.remove((c, k)), c) == coll_pairs(m, c),
{
    assert(m.remove((c, k)) =~= m);
}

/// Namespace isolation: putting an item into one collection changes nothing
/// that another collection's get, list or size can see.
pub proof fn lemma_namespace_isolation(
    m: Map<(Seq<char>, Seq<char>), Seq<u8>>,
    x: Seq<char>,
    y: Seq<char>,
    k: Seq<char>,
    v: Seq<u8>,
)
    requires
        x != y,
    ensures
        coll_pairs(m.insert((x, k), v), y) == coll_pairs(m, y),
        forall|k2: Seq<char>|
            m.insert((x, k), v).dom().contains((y, k2)) <==> #[trigger] m.dom().contains((y, k2)),
        forall|k2: Seq<char>|
            #[trigger] m.dom().contains((y, k2)) ==> m.insert((x, k), v)[(y, k2)] == m[(y, k2)],
{
    assert(coll_pairs(m.insert((x, k), v), y) =~= coll_pairs(m, y));
}

/// Clear-then-list: after clearing a collection it has no rows at all, so a
/// list of it is empty and its size is 0 — and no other collection loses a
/// row.
pub proof fn lemma_clear_collection(m: Map<(Seq<char>, Seq<char>), Seq<u8>>, c: Seq<char>)
    ensures
        coll_pairs(cleared(m, c), c) == Set::<(Seq<char>, Seq<char>)>::empty(),
        coll_pairs(cleared(m, c), c).len() == 0,
        forall|k: Seq<char>| !(#[trigger] cleared(m, c).dom().contains((c, k))),
        forall|c2: Seq<char>|
            c2 != c ==> #[trigger] coll_pairs(cleared(m, c), c2) == coll_pairs(m, c2),
        m.dom().finite() ==> cleared(m, c).dom().finite(),
{
    assert(coll_pairs(cleared(m, c), c) =~= Set::<(Seq<char>, Seq<char>)>::empty());
    if m.dom().finite() {
        assert(cleared(m, c).dom().subset_of(m.dom()));
        lemma_len_subset(cleared(m, c).dom(), m.dom());
    }
    assert forall|c2: Seq<char>| c2 != c implies #[trigger] coll_pairs(cleared(m, c), c2)
        == coll_pairs(m, c2) by {
        assert(coll_pairs(cleared(m, c), c2) =~= coll_pairs(m, c2));
    }
}

impl DbConnection {
    /// Put one item into a collection. If a row with the same (collection,
    /// key) exists it is replaced atomically — no duplicate row, no error;
    /// the checkpoint ledger is untouched either way.
    pub fn put_into_collection(&mut self, collection: &str, key: &str, data: &[u8]) -> (r: Result<
        (),
        DbError,
    >)
        ensures
            final(self).url() == old(self).url(),
            final(self).ckpts() == old(self).ckpts(),
            r is Ok ==> final(self).kv() == old(self).kv().insert((collection@, key@), data@),
            r matches Err(e) ==> final(self).kv() == old(self).kv() && e is Store,
            r matches Err(DbError::Store { operation: eo, collection: ec, key: ek, url: eu, .. })
                ==> eo@ == "put_into_collection"@ && ec@ == collection@ && ek@ == key@ && eu@
                == old(self).url(),
    {
        match store::kv_put(&mut self.connection, collection, key, data) {
            Ok(()) => Ok(()),
            Err(detail) => Err(
                store_error(
                    "put_into_collection",
                    collection,
                    key,
                    self.database_url.as_str(),
                    detail,
                ),
            ),
        }
    }

    /// Return the serialized item stored under (collection, key), reporting
    /// a missing row distinctly from a broken store.
    pub fn get_from_collection(&self, collection: &str, key: &str) -> (r: Result<Vec<u8>, DbError>)
        ensures
            r matches Ok(d) ==> self.kv().dom().contains((collection@, key@)) && d@ == self.kv()[(
                collection@,
                key@,
            )],
            !self.kv().dom().contains((collection@, key@)) ==> r is Err,
            r matches Err(e) ==> (e is NotFound || e is Store) && (e is NotFound
                ==> !self.kv().dom().contains((collection@, key@))),
            r matches Err(DbError::Store { operation: eo, collection: ec, key: ek, url: eu, .. })
                ==> eo@ == "get_from_collection"@ && ec@ == collection@ && ek@ == key@ && eu@
                == self.url(),
    {
        match store::kv_get(&self.connection, collection, key) {
            Ok(Some(d)) => Ok(d),
            Ok(None) => Err(DbError::NotFound),
            Err(detail) => Err(
                store_error(
                    "get_from_collection",
                    collection,
                    key,
                    self.database_url.as_str(),
                    detail,
                ),
            ),
        }
    }

    /// Delete the item stored under (collection, key). Deleting a key that
    /// has no row succeeds and changes nothing (idempotent).
    pub fn del_from_collection(&mut self, collection: &str, key: &str) -> (r: Result<(), DbError>)
        ensures
            final(self).url() == old(self).url(),
            final(self).ckpts() == old(self).ckpts(),
            r is Ok ==> final(self).kv() == old(self).kv().remove((collection@, key@)),
            r matches Err(e) ==> final(self).kv() == old(self).kv() && e is Store,
            r matches Err(DbError::Store { operation: eo, collection: ec, key: ek, url: eu, .. })
                ==> eo@ == "del_from_collection"@ && ec@ == collection@ && ek@ == key@ && eu@
                == old(self).url(),
    {
        match store::kv_delete(&mut self.connection, collection, key) {
            Ok(()) => Ok(()),
            Err(detail) => Err(
                store_error(
                    "del_from_collection",
                    collection,
                    key,
                    self.database_url.as_str(),
                    detail,
                ),
            ),
        }
    }

    /// Remove every item of one collection; other collections and the
    /// checkpoint ledger are untouched.
    pub fn remove_collection(&mut self, collection: &str) -> (r: Result<(), DbError>)
        ensures
            final(self).url() == old(self).url(),
            final(self).ckpts() == old(self).ckpts(),
            r is Ok ==> final(self).kv() == cleared(old(self).kv(), collection@),
            r matches Err(e) ==> final(self).kv() == old(self).kv() && e is Store,
            r matches Err(DbError::Store { operation: eo, collection: ec, key: ek, url: eu, .. })
                ==> eo@ == "remove_collection"@ && ec@ == collection@ && ek@ == ""@ && eu@
                == old(self).url(),
    {
        match store::kv_clear(&mut self.connection, collection) {
            Ok(()) => Ok(()),
            Err(detail) => Err(
                store_error("remove_collection", collection, "", self.database_url.as_str(), detail),
            ),
        }
    }

    /// List every item of one collection: one (key, serialized data) pair
    /// per live row, each key once, and nothing from any other collection.
    pub fn list_collection(&self, collection: &str) -> (r: Result<Vec<(String, Vec<u8>)>, DbError>)
        ensures
            r matches Ok(v) ==> {
                &&& forall|i: int|
                    0 <= i < v@.len() ==> self.kv().dom().contains(
                        (collection@, (#[trigger] v@[i]).0@),
                    ) && v@[i].1@ == self.kv()[(collection@, v@[i].0@)]
                &&& forall|i: int, j: int|
                    0 <= i < j < v@.len() ==> (#[trigger] v@[i]).0@ != (#[trigger] v@[j]).0@
                &&& forall|k: Seq<char>|
                    #[trigger] self.kv().dom().contains((collection@, k)) ==> exists|i: int|
                        0 <= i < v@.len() && (#[trigger] v@[i]).0@ == k
                &&& v@.len() == coll_pairs(self.kv(), collection@).len()
            },
            r matches Err(e) ==> e is Store,
            r matches Err(DbError::Store { operation: eo, collection: ec, key: ek, url: eu, .. })
                ==> eo@ == "list_collection"@ && ec@ == collection@ && ek@ == ""@ && eu@
                == self.url(),
    {
        match store::kv_list(&self.connection, collection) {
            Ok(v) => Ok(v),
            Err(detail) => Err(
                store_error("list_collection", collection, "", self.database_url.as_str(), detail),
            ),
        }
    }

    /// The number of live rows in one collection.
    pub fn collection_size(&self, collection: &str) -> (r: Result<i64, DbError>)
        ensures
            r matches Ok(n) ==> n >= 0 && n as int == coll_pairs(self.kv(), collection@).len()
                as int,
            r matches Err(e) ==> e is Store,
            r matches Err(DbError::Store { operation: eo, collection: ec, key: ek, url: eu, .. })
                ==> eo@ == "collection_size"@ && ec@ == collection@ && ek@ == ""@ && eu@
                == self.url(),
    {
        match store::kv_count(&self.connection, collection) {
            Ok(n) => Ok(n),
            Err(detail) => Err(
                store_error("collection_size", collection, "", self.database_url.as_str(), detail),
            ),
        }
    }
}

} // verus!
