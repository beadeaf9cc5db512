//! The executable data types: the item record, the two request bodies and
//! the response shapes, with their views into the model.

use vstd::prelude::*;

use crate::model::ItemModel;

verus! {

/// One stored record. The identifier is a 128-bit token assigned by the
/// server on creation; timestamps are milliseconds since the Unix epoch.
#[derive(Debug)]
pub struct Item {
    pub id: u128,
    pub name: String,
    pub description: Option<String>,
    pub created_at: i64,
    pub updated_at: i64,
}

/// The view of an optional text field: the text itself, or `None` for "no
/// value supplied".
pub open spec fn opt_text(o: Option<String>) -> Option<Seq<char>> {
    match o {
        Some(s) => Some(s@),
        None => None,
    }
}

impl View for Item {
    type V = ItemModel;

    open spec fn view(&self) -> ItemModel {
        ItemModel {
            id: self.id,
            name: self.name@,
            description: opt_text(self.description),
            created_at: self.created_at as int,
            updated_at: self.updated_at as int,
        }
    }
}

impl Clone for Item {
    fn clone(&self) -> (r: Self)
        ensures
            r@ == self@,
    {
        Item {
            id: self.id,
            name: self.name.clone(),
            description: match &self.description {
                Some(d) => Some(d.clone()),
                None => None,
            },
            created_at: self.created_at,
            updated_at: self.updated_at,
        }
    }
}

/// The body of a create request: a required name and an optional
/// description.
#[derive(Debug)]
pub struct CreateItemRequest {
    pub name: String,
    pub description: Option<String>,
}

/// The body of an update request: either field may be supplied; an omitted
/// field is left unchanged.
#[derive(Debug)]
pub struct UpdateItemRequest {
    pub name: Option<String>,
    pub description: Option<String>,
}

/// The uniform response envelope: a success flag, an optional payload and an
/// optional human-readable message.
#[derive(Debug)]
pub struct ApiResponse<T> {
    pub success: bool,
    pub data: Option<T>,
    pub message: Option<String>,
}

/// The health-check response: a status text, the service version and the
/// moment the check was answered, in milliseconds since the Unix epoch.
#[derive(Debug)]
pub struct HealthResponse {
    pub status: String,
    pub version: String,
    pub timestamp: i64,
}

} // verus!
