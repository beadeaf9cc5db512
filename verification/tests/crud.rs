use demo_rust_api::handlers::create_item;
use demo_rust_api::handlers::create_item_with;
use demo_rust_api::handlers::delete_item;
use demo_rust_api::handlers::get_item;
use demo_rust_api::handlers::health;
use demo_rust_api::handlers::list_items;
use demo_rust_api::handlers::update_item_with;
use demo_rust_api::AppState;
use demo_rust_api::CreateItemRequest;
use demo_rust_api::Item;
use demo_rust_api::UpdateItemRequest;

fn create_payload(name: &str, description: Option<&str>) -> CreateItemRequest {
    CreateItemRequest { name: name.to_string(), description: description.map(|d| d.to_string()) }
}

fn created_item(state: &mut AppState, name: &str, description: Option<&str>) -> Item {
    let (status, resp) = create_item(state, create_payload(name, description));
    assert_eq!(status, 201);
    assert!(resp.success);
    resp.data.expect("created item")
}

#[test]
fn scenario_widget_lifecycle() {
    let mut state = AppState::new();

    let (status, resp) = create_item(&mut state, create_payload("Widget", Some("A widget")));
    assert_eq!(status, 201);
    assert!(resp.success);
    assert_eq!(resp.message.as_deref(), Some("Item created successfully"));
    let created = resp.data.expect("created item");
    assert_eq!(created.name, "Widget");
    assert_eq!(created.description.as_deref(), Some("A widget"));

    let fetched = get_item(&state, created.id).expect("item should be found");
    assert!(fetched.success);
    let fetched = fetched.data.expect("fetched item");
    assert_eq!(fetched.id, created.id);
    assert_eq!(fetched.name, created.name);
    assert_eq!(fetched.description, created.description);
    assert_eq!(fetched.created_at, created.created_at);
    assert_eq!(fetched.updated_at, created.updated_at);

    let updated = update_item_with(
        &mut state,
        created.id,
        UpdateItemRequest { name: Some("Widget v2".to_string()), description: None },
        created.updated_at + 1,
    )
    .expect("item should be found");
    assert!(updated.success);
    assert_eq!(updated.message.as_deref(), Some("Item updated successfully"));
    let updated = updated.data.expect("updated item");
    assert_eq!(updated.name, "Widget v2");
    assert_eq!(updated.description.as_deref(), Some("A widget"));

    let deleted = delete_item(&mut state, created.id).expect("item should be found");
    assert!(deleted.success);
    assert!(deleted.data.is_none());
    assert_eq!(deleted.message.as_deref(), Some("Item deleted successfully"));

    let missing = get_item(&state, created.id).expect_err("item should be gone");
    assert_eq!(missing.0, 404);
    let message = missing.1.message.expect("not-found message");
    assert!(message.contains(&uuid::Uuid::from_u128(created.id).to_string()));

    let h = health();
    assert_eq!(h.status, "healthy");
    assert!(!h.version.is_empty());
}

#[test]
fn create_sets_equal_timestamps() {
    let mut state = AppState::new();
    let (status, resp) = create_item_with(&mut state, create_payload("clock", None), 7, 1234);
    assert_eq!(status, 201);
    let item = resp.data.expect("created item");
    assert_eq!(item.created_at, 1234);
    assert_eq!(item.updated_at, 1234);

    let random = created_item(&mut state, "clock2", None);
    assert_eq!(random.created_at, random.updated_at);
}

#[test]
fn create_assigns_distinct_ids() {
    let mut state = AppState::new();
    let a = created_item(&mut state, "first", None);
    let b = created_item(&mut state, "second", None);
    assert_ne!(a.id, b.id);

    let listed = list_items(&state).data.expect("list payload");
    assert_eq!(listed.len(), 2);
}

#[test]
fn get_after_create_returns_equal_item() {
    let mut state = AppState::new();
    let (status, resp) =
        create_item_with(&mut state, create_payload("exact", Some("fields")), 42, 99);
    assert_eq!(status, 201);
    let created = resp.data.expect("created item");

    let fetched = get_item(&state, 42).expect("item should be found").data.expect("item");
    assert_eq!(fetched.id, created.id);
    assert_eq!(fetched.name, created.name);
    assert_eq!(fetched.description, created.description);
    assert_eq!(fetched.created_at, created.created_at);
    assert_eq!(fetched.updated_at, created.updated_at);
}

#[test]
fn update_keeps_omitted_description() {
    let mut state = AppState::new();
    create_item_with(&mut state, create_payload("before", Some("kept")), 1, 10);

    let updated = update_item_with(
        &mut state,
        1,
        UpdateItemRequest { name: Some("after".to_string()), description: None },
        25,
    )
    .expect("item should be found")
    .data
    .expect("updated item");

    assert_eq!(updated.name, "after");
    assert_eq!(updated.description.as_deref(), Some("kept"));
    assert_eq!(updated.created_at, 10);
    assert_eq!(updated.updated_at, 25);
    assert!(updated.updated_at > 10);
}

#[test]
fn update_replaces_supplied_fields() {
    let mut state = AppState::new();
    create_item_with(&mut state, create_payload("old name", Some("old text")), 2, 5);

    let updated = update_item_with(
        &mut state,
        2,
        UpdateItemRequest {
            name: Some("new name".to_string()),
            description: Some("new text".to_string()),
        },
        6,
    )
    .expect("item should be found")
    .data
    .expect("updated item");

    assert_eq!(updated.name, "new name");
    assert_eq!(updated.description.as_deref(), Some("new text"));

    let fetched = get_item(&state, 2).expect("item should be found").data.expect("item");
    assert_eq!(fetched.name, "new name");
    assert_eq!(fetched.description.as_deref(), Some("new text"));
}

#[test]
fn update_unknown_id_reports_not_found() {
    let mut state = AppState::new();
    let err = update_item_with(
        &mut state,
        3,
        UpdateItemRequest { name: Some("ghost town".to_string()), description: None },
        1,
    )
    .expect_err("nothing stored");
    assert_eq!(err.0, 404);
    assert!(!err.1.success);
    assert!(err.1.data.is_none());
    let message = err.1.message.expect("not-found message");
    assert!(message.contains(&uuid::Uuid::from_u128(3).to_string()));
}

#[test]
fn delete_then_get_reports_not_found() {
    let mut state = AppState::new();
    create_item_with(&mut state, create_payload("doomed", None), 9, 1);

    let deleted = delete_item(&mut state, 9).expect("item should be found");
    assert!(deleted.success);

    let missing = get_item(&state, 9).expect_err("item should be gone");
    assert_eq!(missing.0, 404);

    let again = delete_item(&mut state, 9).expect_err("already deleted");
    assert_eq!(again.0, 404);
    assert!(!again.1.success);
}

#[test]
fn list_counts_creates_minus_deletes() {
    let mut state = AppState::new();
    assert_eq!(list_items(&state).data.expect("list payload").len(), 0);

    let a = created_item(&mut state, "a", None);
    created_item(&mut state, "b", None);
    delete_item(&mut state, a.id).expect("a should be found");
    let c = created_item(&mut state, "c", None);
    delete_item(&mut state, 0xdead_beef).expect_err("never stored");
    created_item(&mut state, "d", None);
    delete_item(&mut state, c.id).expect("c should be found");

    let listed = list_items(&state).data.expect("list payload");
    assert_eq!(listed.len(), 2);
}

#[test]
fn empty_name_is_rejected() {
    let mut state = AppState::new();
    let (status, resp) = create_item_with(&mut state, create_payload("", Some("text")), 4, 1);
    assert_eq!(status, 400);
    assert!(!resp.success);
    assert!(resp.data.is_none());
    assert_eq!(resp.message.as_deref(), Some("Item name must not be empty"));
    assert_eq!(list_items(&state).data.expect("list payload").len(), 0);

    let (status, resp) = create_item(&mut state, create_payload("", None));
    assert_eq!(status, 400);
    assert!(!resp.success);
}

#[test]
fn not_found_message_names_the_id() {
    let state = AppState::new();
    let id: u128 = 0x123e4567_e89b_12d3_a456_426614174000;
    let err = get_item(&state, id).expect_err("nothing stored");
    assert_eq!(err.0, 404);
    let message = err.1.message.expect("not-found message");
    assert_eq!(message, "Item with id 123e4567-e89b-12d3-a456-426614174000 not found");
    assert_eq!(
        message,
        format!("Item with id {} not found", uuid::Uuid::from_u128(id))
    );
}

#[test]
fn health_reports_status_and_version() {
    let h = health();
    assert_eq!(h.status, "healthy");
    assert_eq!(h.version, "0.1.0");
    assert!(!h.version.is_empty());
}
