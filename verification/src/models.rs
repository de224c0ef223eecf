//! Plain row types for the optional higher-level domain tables, and the one
//! write the library performs against them.

use vstd::prelude::*;

verus! {

/// A row of the `models` table.
pub struct Model {
    pub id: i32,
    pub name: String,
}

/// A row of the `molecules` table.
pub struct Molecule {
    pub id: i32,
    pub name: String,
    pub data: Vec<u8>,
}

/// A row of the `properties` table.
pub struct Properties {
    pub model_id: i32,
    pub molecule_id: i32,
    pub data: Vec<u8>,
}

/// A bare structure reference.
#[derive(Clone, Copy, Debug)]
pub struct Structure {
    pub id: i32,
}

/// Save one serialized molecule as the model results record: a fresh row
/// of the `properties` table under the fixed (model 1, molecule 1) pair.
/// The pair must have no row yet — a second save collides with the first.
/// The checkpoint ledger and the collection table are untouched.
pub fn save_model_results(db: &mut crate::DbConnection, molecule_data: &[u8]) -> (r: Result<
    (),
    crate::DbError,
>)
    ensures
        final(db).url() == old(db).url(),
        final(db).ckpts() == old(db).ckpts(),
        final(db).kv() == old(db).kv(),
        r is Ok ==> !old(db).props().dom().contains((1i32, 1i32)) && final(db).props() == old(
            db,
        ).props().insert((1i32, 1i32), molecule_data@),
        r matches Err(e) ==> e is Store && final(db).props() == old(db).props(),
        r matches Err(crate::DbError::Store { operation: eo, url: eu, .. }) ==> eo@
            == "save_model_results"@ && eu@ == old(db).url(),
{
    match crate::store::insert_properties(&mut db.connection, 1, 1, molecule_data) {
        Ok(()) => Ok(()),
        Err(detail) => Err(
            crate::store_error("save_model_results", "", "", db.database_url.as_str(), detail),
        ),
    }
}

} // verus!
