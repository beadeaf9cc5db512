//! The request handlers: validate the input, perform exactly one store
//! operation, and build the response envelope with its status code.

use vstd::prelude::*;
use vstd::string::StringExecFns;

use crate::clock::now_millis;
use crate::ids::fresh_id;
use crate::ids::id_text;
use crate::ids::id_text_of;
use crate::item::ApiResponse;
use crate::item::CreateItemRequest;
use crate::item::HealthResponse;
use crate::item::Item;
use crate::item::UpdateItemRequest;
use crate::item::opt_text;
use crate::model::new_item_model;
use crate::model::updated_item_model;
use crate::store::AppState;
use crate::store::lemma_map_of_contains;
use crate::store::lemma_map_of_index;

verus! {

pub const STATUS_OK: u16 = 200;

pub const STATUS_CREATED: u16 = 201;

pub const STATUS_BAD_REQUEST: u16 = 400;

pub const STATUS_NOT_FOUND: u16 = 404;

/// The text of the not-found message for `id`: it names the missing
/// identifier in its canonical form.
pub open spec fn not_found_text(id: u128) -> Seq<char> {
    "Item with id "@ + id_text_of(id) + " not found"@
}

fn not_found_message(id: u128) -> (r: String)
    ensures
        r@ == not_found_text(id),
{
    let t = id_text(id);
    let s = "Item with id ".to_owned().concat(t.as_str()).concat(" not found");
    proof {
        assert(s@ =~= not_found_text(id));
    }
    s
}

fn not_found_response(id: u128) -> (r: ApiResponse<()>)
    ensures
        !r.success,
        r.data is None,
        r.message matches Some(m) && m@ == not_found_text(id),
{
    ApiResponse::<()> { success: false, data: None, message: Some(not_found_message(id)) }
}

/// Answers the health check: a fixed status text, the service version and
/// the moment of the call. The check never fails; the timestamp comes from
/// the clock, of which nothing is promised.
pub fn health() -> (r: HealthResponse)
    ensures
        r.status@ == "healthy"@,
        r.version@ == "0.1.0"@,
        r.version@.len() > 0,
{
    let now = now_millis();
    let r = HealthResponse {
        status: "healthy".to_owned(),
        version: "0.1.0".to_owned(),
        timestamp: now,
    };
    proof {
        reveal_strlit("0.1.0");
    }
    r
}

/// Lists all items: a successful envelope holding one copy of each stored
/// item, exactly one per stored identifier.
pub fn list_items(state: &AppState) -> (r: ApiResponse<Vec<Item>>)
    requires
        state.wf(),
    ensures
        r.success,
        r.message is None,
        r.data matches Some(v) && {
            &&& v@.len() == state@.dom().len()
            &&& forall|i: int|
                0 <= i < v@.len() ==> state@.contains_pair((#[trigger] v@[i])@.id, v@[i]@)
            &&& forall|k: u128|
                #[trigger] state@.contains_key(k) ==> exists|i: int|
                    0 <= i < v@.len() && (#[trigger] v@[i])@.id == k
        },
{
    let v = state.list();
    proof {
        assert forall|i: int|
            0 <= i < v@.len() implies state@.contains_pair((v@[i])@.id, v@[i]@) by {
            assert(v@.map_values(|it: Item| it@)[i] == v@[i]@);
            lemma_map_of_index(state.models(), i);
        }
        assert forall|k: u128| state@.contains_key(k) implies exists|i: int|
            0 <= i < v@.len() && (v@[i])@.id == k by {
            lemma_map_of_contains(state.models(), k);
            let i = choose|i: int| 0 <= i < state.models().len() && state.models()[i].id == k;
            assert(v@.map_values(|it: Item| it@)[i] == v@[i]@);
            assert((v@[i])@.id == k);
        }
    }
    ApiResponse::<Vec<Item>> { success: true, data: Some(v), message: None }
}

/// Gets one item: a successful envelope with a copy of the item under
/// `id`, or a not-found envelope naming the missing identifier.
pub fn get_item(state: &AppState, id: u128) -> (r: Result<
    ApiResponse<Item>,
    (u16, ApiResponse<()>),
>)
    requires
        state.wf(),
    ensures
        state@.contains_key(id) ==> (r matches Ok(resp) && {
            &&& resp.success
            &&& (resp.data matches Some(it) && it@ == state@[id])
            &&& resp.message is None
        }),
        !state@.contains_key(id) ==> (r matches Err(e) && {
            &&& e.0 == STATUS_NOT_FOUND
            &&& !e.1.success
            &&& e.1.data is None
            &&& (e.1.message matches Some(m) && m@ == not_found_text(id))
        }),
{
    match state.get(id) {
        Some(it) => Ok(
            ApiResponse::<Item> { success: true, data: Some(it.clone()), message: None },
        ),
        None => Err((STATUS_NOT_FOUND, not_found_response(id))),
    }
}

/// Creates an item from the given payload under the given fresh identifier
/// and creation time: on a non-empty name, the new record, with both
/// timestamps equal, is stored under `id` and returned in a 201 envelope;
/// on an empty name nothing changes and a 400 envelope reports the fault.
pub fn create_item_with(
    state: &mut AppState,
    payload: CreateItemRequest,
    id: u128,
    now: i64,
) -> (r: (u16, ApiResponse<Item>))
    requires
        old(state).wf(),
    ensures
        final(state).wf(),
        payload.name@.len() > 0 ==> {
            let m = new_item_model(id, payload.name@, opt_text(payload.description), now as int);
            &&& r.0 == STATUS_CREATED
            &&& r.1.success
            &&& (r.1.data matches Some(it) && it@ == m)
            &&& (r.1.message matches Some(msg) && msg@ == "Item created successfully"@)
            &&& final(state)@ == old(state)@.insert(id, m)
        },
        payload.name@.len() == 0 ==> {
            &&& r.0 == STATUS_BAD_REQUEST
            &&& !r.1.success
            &&& r.1.data is None
            &&& (r.1.message matches Some(msg) && msg@ == "Item name must not be empty"@)
            &&& final(state)@ == old(state)@
        },
{
    if payload.name.as_str().is_empty() {
        (
            STATUS_BAD_REQUEST,
            ApiResponse::<Item> {
                success: false,
                data: None,
                message: Some("Item name must not be empty".to_owned()),
            },
        )
    } else {
        let item = Item {
            id,
            name: payload.name,
            description: payload.description,
            created_at: now,
            updated_at: now,
        };
        let copy = item.clone();
        let ghost m = item@;
        // An identifier handed in from outside may, in principle, collide
        // with a stored one; clearing its slot first gives the insert its
        // freshness precondition and keeps plain keyed-insert semantics.
        let _ = state.remove(id);
        state.insert(item);
        proof {
            assert(state@ =~= old(state)@.insert(id, m));
        }
        (
            STATUS_CREATED,
            ApiResponse::<Item> {
                success: true,
                data: Some(copy),
                message: Some("Item created successfully".to_owned()),
            },
        )
    }
}

/// Creates an item with a freshly generated identifier and the current
/// time. Whatever identifier and time came from outside, a non-empty name
/// yields a 201 envelope whose item is stored under its own identifier with
/// equal timestamps, and an empty name changes nothing and yields 400.
pub fn create_item(state: &mut AppState, payload: CreateItemRequest) -> (r: (
    u16,
    ApiResponse<Item>,
))
    requires
        old(state).wf(),
    ensures
        final(state).wf(),
        payload.name@.len() > 0 ==> {
            &&& r.0 == STATUS_CREATED
            &&& r.1.success
            &&& (r.1.data matches Some(it) && {
                &&& it@ == new_item_model(
                    it@.id,
                    payload.name@,
                    opt_text(payload.description),
                    it@.created_at,
                )
                &&& it@.created_at == it@.updated_at
                &&& final(state)@ == old(state)@.insert(it@.id, it@)
            })
            &&& (r.1.message matches Some(msg) && msg@ == "Item created successfully"@)
        },
        payload.name@.len() == 0 ==> {
            &&& r.0 == STATUS_BAD_REQUEST
            &&& !r.1.success
            &&& r.1.data is None
            &&& (r.1.message matches Some(msg) && msg@ == "Item name must not be empty"@)
            &&& final(state)@ == old(state)@
        },
{
    let id = fresh_id();
    let now = now_millis();
    create_item_with(state, payload, id, now)
}

/// Updates the item under `id` from the given payload at the given time:
/// a supplied field replaces the old value, an omitted field is left
/// unchanged, the update time is refreshed, and the updated copy is
/// returned in a successful envelope; an unknown identifier changes
/// nothing and yields a not-found envelope naming it.
pub fn update_item_with(
    state: &mut AppState,
    id: u128,
    payload: UpdateItemRequest,
    now: i64,
) -> (r: Result<ApiResponse<Item>, (u16, ApiResponse<()>)>)
    requires
        old(state).wf(),
    ensures
        final(state).wf(),
        old(state)@.contains_key(id) ==> {
            let m = updated_item_model(
                old(state)@[id],
                opt_text(payload.name),
                opt_text(payload.description),
                now as int,
            );
            &&& (r matches Ok(resp) && {
                &&& resp.success
                &&& (resp.data matches Some(it) && it@ == m)
                &&& (resp.message matches Some(msg) && msg@ == "Item updated successfully"@)
            })
            &&& final(state)@ == old(state)@.insert(id, m)
        },
        !old(state)@.contains_key(id) ==> {
            &&& (r matches Err(e) && {
                &&& e.0 == STATUS_NOT_FOUND
                &&& !e.1.success
                &&& e.1.data is None
                &&& (e.1.message matches Some(msg) && msg@ == not_found_text(id))
            })
            &&& final(state)@ == old(state)@
        },
{
    match state.update(id, payload.name, payload.description, now) {
        Some(it) => Ok(
            ApiResponse::<Item> {
                success: true,
                data: Some(it),
                message: Some("Item updated successfully".to_owned()),
            },
        ),
        None => Err((STATUS_NOT_FOUND, not_found_response(id))),
    }
}

/// Updates the item under `id` at the current time. Whatever time came from
/// the clock, a known identifier yields the updated copy, stored and
/// returned, with only the supplied fields replaced; an unknown one changes
/// nothing and yields a not-found envelope naming it.
pub fn update_item(state: &mut AppState, id: u128, payload: UpdateItemRequest) -> (r: Result<
    ApiResponse<Item>,
    (u16, ApiResponse<()>),
>)
    requires
        old(state).wf(),
    ensures
        final(state).wf(),
        old(state)@.contains_key(id) ==> (r matches Ok(resp) && {
            &&& resp.success
            &&& (resp.data matches Some(it) && {
                &&& it@ == updated_item_model(
                    old(state)@[id],
                    opt_text(payload.name),
                    opt_text(payload.description),
                    it@.updated_at,
                )
                &&& final(state)@ == old(state)@.insert(id, it@)
            })
            &&& (resp.message matches Some(msg) && msg@ == "Item updated successfully"@)
        }),
        !old(state)@.contains_key(id) ==> {
            &&& (r matches Err(e) && {
                &&& e.0 == STATUS_NOT_FOUND
                &&& !e.1.success
                &&& e.1.data is None
                &&& (e.1.message matches Some(msg) && msg@ == not_found_text(id))
            })
            &&& final(state)@ == old(state)@
        },
{
    let now = now_millis();
    update_item_with(state, id, payload, now)
}

/// Deletes the item under `id`: a successful envelope with no payload if it
/// was stored, a not-found envelope naming the identifier if not; in either
/// case the identifier is absent afterwards.
pub fn delete_item(state: &mut AppState, id: u128) -> (r: Result<
    ApiResponse<()>,
    (u16, ApiResponse<()>),
>)
    requires
        old(state).wf(),
    ensures
        final(state).wf(),
        final(state)@ == old(state)@.remove(id),
        old(state)@.contains_key(id) ==> (r matches Ok(resp) && {
            &&& resp.success
            &&& resp.data is None
            &&& (resp.message matches Some(m) && m@ == "Item deleted successfully"@)
        }),
        !old(state)@.contains_key(id) ==> (r matches Err(e) && {
            &&& e.0 == STATUS_NOT_FOUND
            &&& !e.1.success
            &&& e.1.data is None
            &&& (e.1.message matches Some(m) && m@ == not_found_text(id))
        }),
{
    let found = state.remove(id);
    if found {
        Ok(
            ApiResponse::<()> {
                success: true,
                data: None,
                message: Some("Item deleted successfully".to_owned()),
            },
        )
    } else {
        Err((STATUS_NOT_FOUND, not_found_response(id)))
    }
}

} // verus!
