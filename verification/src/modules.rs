//! Types of the in-memory variant of the todo endpoints, whose items carry no
//! owner.
use vstd::prelude::*;
use crate::http::modules::Timestamp;

verus! {

/// A stored todo item.
pub struct Todo {
    pub id: u128,
    pub title: String,
    pub completed: bool,
    pub created_at: Timestamp,
}

/// The body of a create request.
pub struct TodoCreate {
    pub title: String,
}

/// The body of an update request: the fields to change.
pub struct TodoUpdate {
    pub title: Option<String>,
    pub completed: Option<bool>,
}

/// The body of a delete request.
pub struct TodoDelete {
    pub id: u128,
}

/// A todo item as the endpoints return it; the creation time is `time`.
pub struct TodoResponse {
    pub id: u128,
    pub title: String,
    pub completed: bool,
    pub time: Timestamp,
}

/// The response for a stored item: the same fields, the creation time as
/// `time`.
pub open spec fn response_of(t: Todo) -> TodoResponse {
    TodoResponse { id: t.id, title: t.title, completed: t.completed, time: t.created_at }
}

impl From<Todo> for TodoResponse {
    fn from(value: Todo) -> (r: Self)
        ensures
            r == response_of(value),
    {
        TodoResponse {
            id: value.id,
            title: value.title,
            completed: value.completed,
            time: value.created_at,
        }
    }
}

impl vstd::std_specs::convert::FromSpecImpl<Todo> for TodoResponse {
    open spec fn obeys_from_spec() -> bool {
        true
    }

    open spec fn from_spec(v: Todo) -> TodoResponse {
        response_of(v)
    }
}

} // verus!
