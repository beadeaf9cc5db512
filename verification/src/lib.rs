//! An in-memory CRUD service core: a keyed collection of items together with
//! the request-handling logic that wraps results in a uniform response
//! envelope.
//!
//! The store holds items keyed by a 128-bit identifier; handlers validate
//! input, perform exactly one store operation, and build an envelope with a
//! status code. Identifier generation and wall-clock time come from outside
//! and are taken as arguments by the functions whose behaviour is stated
//! exactly.

pub mod model;
pub mod item;
pub mod ids;
pub mod clock;
pub mod store;
pub mod handlers;
pub mod laws;

pub use item::ApiResponse;
pub use item::CreateItemRequest;
pub use item::HealthResponse;
pub use item::Item;
pub use item::UpdateItemRequest;
pub use store::AppState;
