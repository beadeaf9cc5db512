//! The laws of the store, stated over the model that every contract in
//! this crate uses: a keyed map of item models.

use vstd::prelude::*;

use crate::model::ItemModel;
use crate::model::new_item_model;
use crate::model::updated_item_model;
use crate::store::AppState;
use crate::store::lemma_map_of_len;

verus! {

/// A freshly created record carries equal creation and update times, and
/// sits under the identifier it was created with.
pub proof fn law_created_item_timestamps(
    id: u128,
    name: Seq<char>,
    description: Option<Seq<char>>,
    now: int,
)
    ensures
        new_item_model(id, name, description, now).created_at == new_item_model(
            id,
            name,
            description,
            now,
        ).updated_at,
        new_item_model(id, name, description, now).id == id,
{
}

/// Reading an identifier right after a create that stored a record under it
/// yields exactly the record the create returned.
pub proof fn law_get_after_create(m: Map<u128, ItemModel>, it: ItemModel)
    ensures
        m.insert(it.id, it).contains_key(it.id),
        m.insert(it.id, it)[it.id] == it,
{
}

/// An update that omits the description leaves the stored description
/// unchanged, never moves the identifier or the creation time, and stamps
/// the record with the update's own time; when that time lies strictly
/// after the record's previous update time, the stored update time
/// strictly increases.
pub proof fn law_update_keeps_description(
    it: ItemModel,
    name: Option<Seq<char>>,
    now: int,
)
    ensures
        updated_item_model(it, name, None, now).description == it.description,
        updated_item_model(it, name, None, now).created_at == it.created_at,
        updated_item_model(it, name, None, now).id == it.id,
        updated_item_model(it, name, None, now).updated_at == now,
        now > it.updated_at ==> updated_item_model(it, name, None, now).updated_at
            > it.updated_at,
{
}

/// After a delete the identifier is absent, so a following read reports
/// not-found; and deleting the same identifier again finds nothing and
/// changes nothing, a failure but not an error.
pub proof fn law_delete_then_get(m: Map<u128, ItemModel>, id: u128)
    ensures
        !m.remove(id).contains_key(id),
        m.remove(id).remove(id) == m.remove(id),
{
    assert(m.remove(id).remove(id) =~= m.remove(id));
}

/// A create under a fresh identifier grows the store by exactly one entry.
pub proof fn law_size_after_create(m: Map<u128, ItemModel>, it: ItemModel)
    requires
        m.dom().finite(),
        !m.contains_key(it.id),
    ensures
        m.insert(it.id, it).dom().finite(),
        m.insert(it.id, it).dom().len() == m.dom().len() + 1,
{
    assert(m.insert(it.id, it).dom() =~= m.dom().insert(it.id));
}

/// A delete of a stored identifier shrinks the store by exactly one entry;
/// a delete of an absent one leaves its size unchanged. Together with the
/// law above, the number of stored items equals the number of successful
/// creates minus the number of successful deletes, in whatever order they
/// ran.
pub proof fn law_size_after_delete(m: Map<u128, ItemModel>, id: u128)
    requires
        m.dom().finite(),
    ensures
        m.remove(id).dom().finite(),
        m.contains_key(id) ==> m.remove(id).dom().len() == m.dom().len() - 1,
        !m.contains_key(id) ==> m.remove(id).dom().len() == m.dom().len(),
{
    assert(m.remove(id).dom() =~= m.dom().remove(id));
}

/// A record's creation time never lies after its update time: a fresh
/// record carries the two equal, and an update preserves the order
/// whenever the clock reads no earlier than the record's creation time.
/// The clock itself promises no such reading, so the condition is stated,
/// not assumed.
pub proof fn law_timestamp_order(
    it: ItemModel,
    name: Option<Seq<char>>,
    description: Option<Seq<char>>,
    now: int,
)
    ensures
        new_item_model(it.id, it.name, it.description, now).created_at <= new_item_model(
            it.id,
            it.name,
            it.description,
            now,
        ).updated_at,
        now >= it.created_at ==> updated_item_model(it, name, description, now).created_at
            <= updated_item_model(it, name, description, now).updated_at,
{
}

/// A well-formed store holds exactly one entry per stored identifier: its
/// abstract size is finite and equals the number of items held, so no
/// identifier is ever duplicated.
pub proof fn law_store_size(s: &AppState)
    requires
        s.wf(),
    ensures
        s@.dom().finite(),
        s@.dom().len() == s.items@.len(),
{
    lemma_map_of_len(s.models());
}

} // verus!
