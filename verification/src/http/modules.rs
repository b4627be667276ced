//! Request and response types of the todo endpoints. Identifiers are the 128
//! bits of a UUID, most significant byte first.
use vstd::prelude::*;

verus! {

/// A point in time: whole seconds since the Unix epoch and the nanoseconds
/// past that second (below one billion).
#[derive(Clone, Copy, Debug, PartialEq, Eq, Structural)]
pub struct Timestamp {
    pub secs: i64,
    pub nanos: u32,
}

/// Paging and filtering of a list request, with the defaults filled in.
pub struct QueryFilter {
    pub offset: u32,
    pub limit: u32,
    pub search: Option<String>,
    pub completed: Option<bool>,
}

/// Paging and filtering of a list request, as the query string gives it.
pub struct Queryfr {
    pub offset: Option<u32>,
    pub limit: Option<u32>,
    pub search: Option<String>,
    pub completed: Option<bool>,
}

/// A stored todo item.
pub struct Todo {
    pub id: u128,
    pub user_id: u128,
    pub title: String,
    pub completed: bool,
    pub created_at: Timestamp,
}

/// The body of a create request.
pub struct TodoCreate {
    pub title: String,
    pub completed: Option<bool>,
}

/// The body of an update request: the fields to change.
pub struct TodoUpdate {
    pub title: Option<String>,
    pub completed: Option<bool>,
}

/// The body of a delete request.
pub struct TodoDelete {
    pub id: u128,
}

/// A todo item as the endpoints return it.
pub struct TodoResponse {
    pub id: u128,
    pub user_id: u128,
    pub title: String,
    pub completed: bool,
    pub created_at: Timestamp,
}

/// The offset used when the request gives none.
pub const DEFAULT_OFFSET: u32 = 0;

/// The page size used when the request gives none.
pub const DEFAULT_LIMIT: u32 = 10;

/// The filter that a list request asks for: the given fields, with offset 0
/// and limit 10 where the request leaves them out.
pub open spec fn filter_of(q: Queryfr) -> QueryFilter {
    QueryFilter {
        offset: match q.offset { Some(o) => o, None => DEFAULT_OFFSET },
        limit: match q.limit { Some(l) => l, None => DEFAULT_LIMIT },
        search: q.search,
        completed: q.completed,
    }
}

/// The response for a stored item: the same fields.
pub open spec fn response_of(t: Todo) -> TodoResponse {
    TodoResponse {
        id: t.id,
        user_id: t.user_id,
        title: t.title,
        completed: t.completed,
        created_at: t.created_at,
    }
}

impl From<Todo> for TodoResponse {
    fn from(value: Todo) -> (r: Self)
        ensures
            r == response_of(value),
    {
        TodoResponse {
            id: value.id,
            user_id: value.user_id,
            title: value.title,
            completed: value.completed,
            created_at: value.created_at,
        }
    }
}

impl vstd::std_specs::convert::FromSpecImpl<Todo> for TodoResponse {
    open spec fn obeys_from_spec() -> bool {
        true
    }

    open spec fn from_spec(v: Todo) -> TodoResponse {
        response_of(v)
    }
}

impl From<Queryfr> for QueryFilter {
    fn from(query: Queryfr) -> (r: Self)
        ensures
            r == filter_of(query),
    {
        QueryFilter {
            offset: match query.offset { Some(o) => o, None => DEFAULT_OFFSET },
            limit: match query.limit { Some(l) => l, None => DEFAULT_LIMIT },
            search: query.search,
            completed: query.completed,
        }
    }
}

impl vstd::std_specs::convert::FromSpecImpl<Queryfr> for QueryFilter {
    open spec fn obeys_from_spec() -> bool {
        true
    }

    open spec fn from_spec(q: Queryfr) -> QueryFilter {
        filter_of(q)
    }
}

impl TodoCreate {
    /// The title and completion state to store: not completed unless the
    /// request says so.
    pub fn into_fields(self) -> (r: (String, bool))
        ensures
            r.0 == self.title,
            r.1 == (match self.completed { Some(c) => c, None => false }),
    {
        let completed = match self.completed {
            Some(c) => c,
            None => false,
        };
        (self.title, completed)
    }
}

} // verus!
