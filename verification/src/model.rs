//! Mathematical model of an item and of the two operations that build or
//! change one. All contracts in this crate speak of these ghost values.

use vstd::prelude::*;

verus! {

/// The model of one stored record: the identifier, the two text fields and
/// the two timestamps, all as mathematical values.
pub ghost struct ItemModel {
    pub id: u128,
    pub name: Seq<char>,
    pub description: Option<Seq<char>>,
    pub created_at: int,
    pub updated_at: int,
}

/// The record that a create operation builds: both timestamps are set to the
/// moment of creation.
pub open spec fn new_item_model(
    id: u128,
    name: Seq<char>,
    description: Option<Seq<char>>,
    now: int,
) -> ItemModel {
    ItemModel { id, name, description, created_at: now, updated_at: now }
}

/// The record that an update operation leaves behind: a field given as
/// `Some` replaces the old value, a field given as `None` is left unchanged,
/// the creation time and the identifier never move, and the update time is
/// set to the moment of the update.
pub open spec fn updated_item_model(
    it: ItemModel,
    name: Option<Seq<char>>,
    description: Option<Seq<char>>,
    now: int,
) -> ItemModel {
    ItemModel {
        id: it.id,
        name: match name {
            Some(n) => n,
            None => it.name,
        },
        description: match description {
            Some(d) => Some(d),
            None => it.description,
        },
        created_at: it.created_at,
        updated_at: now,
    }
}

} // verus!
