//! Decisions of the in-memory variant of the todo endpoints: which requests
//! are refused, and how the store's answer becomes the response.
use vstd::prelude::*;
use vstd::string::StringExecFns;
use crate::http::errors::AppError;
use crate::http::handlers::{STATUS_CREATED, STATUS_NO_CONTENT, STATUS_OK};
use crate::modules::{response_of, Todo, TodoCreate, TodoResponse, TodoUpdate};
use crate::text::{trim, trimmed};

verus! {

pub open spec fn msg_title_empty() -> Seq<char> {
    "title cannot be empty"@
}

/// A title that is blank once trimmed.
pub open spec fn title_blank(title: Seq<char>) -> bool {
    trimmed(title).len() == 0
}

/// The answer to reading one item: the item, or not found when the store
/// has none under the id.
pub fn get_one(found: Option<Todo>) -> (r: Result<TodoResponse, AppError>)
    ensures
        match found {
            Some(t) => r == Ok::<TodoResponse, AppError>(response_of(t)),
            None => r == Err::<TodoResponse, AppError>(AppError::NotFound),
        },
{
    match found {
        Some(todo) => Ok(TodoResponse::from(todo)),
        None => Err(AppError::NotFound),
    }
}

/// Whether a create request may be stored: a title that is blank once
/// trimmed is a bad request; otherwise the answer is 201.
pub fn create(payload: &TodoCreate) -> (r: Result<u16, AppError>)
    ensures
        title_blank(payload.title@) ==> (r matches Err(AppError::BadRequest(m)) && m@
            == msg_title_empty()),
        !title_blank(payload.title@) ==> r == Ok::<u16, AppError>(STATUS_CREATED),
{
    if trim(payload.title.as_str()).is_empty() {
        return Err(AppError::BadRequest(String::from_str("title cannot be empty")));
    }
    Ok(STATUS_CREATED)
}

/// The answer to reading all items: each as a response, in the store's
/// order.
pub fn get_all(todos: Vec<Todo>) -> (r: Vec<TodoResponse>)
    ensures
        r@ == todos@.map_values(|t: Todo| response_of(t)),
{
    let mut todos = todos;
    let ghost all = todos@;
    let mut out: Vec<TodoResponse> = Vec::new();
    while todos.len() > 0
        invariant
            out@.len() + todos@.len() == all.len(),
            todos@ =~= all.subrange(out@.len() as int, all.len() as int),
            out@ =~= all.subrange(0, out@.len() as int).map_values(|t: Todo| response_of(t)),
        decreases todos.len(),
    {
        let t = todos.remove(0);
        out.push(TodoResponse::from(t));
    }
    out
}

/// The answer to deleting an item: 204 when the store removed it, not found
/// otherwise.
pub fn delete_one(deleted: bool) -> (r: Result<u16, AppError>)
    ensures
        deleted ==> r == Ok::<u16, AppError>(STATUS_NO_CONTENT),
        !deleted ==> r == Err::<u16, AppError>(AppError::NotFound),
{
    if deleted {
        Ok(STATUS_NO_CONTENT)
    } else {
        Err(AppError::NotFound)
    }
}

/// Whether an update request may be applied: a new title that is blank once
/// trimmed is a bad request.
pub fn check_update(payload: &TodoUpdate) -> (r: Result<(), AppError>)
    ensures
        (payload.title matches Some(t) && title_blank(t@)) ==> (r matches Err(
            AppError::BadRequest(m),
        ) && m@ == msg_title_empty()),
        !(payload.title matches Some(t) && title_blank(t@)) ==> r is Ok,
{
    if let Some(title) = &payload.title {
        if trim(title.as_str()).is_empty() {
            return Err(AppError::BadRequest(String::from_str("title cannot be empty")));
        }
    }
    Ok(())
}

/// The answer to an update: 200 when the store changed the item, not found
/// otherwise.
pub fn update(updated: bool) -> (r: Result<u16, AppError>)
    ensures
        updated ==> r == Ok::<u16, AppError>(STATUS_OK),
        !updated ==> r == Err::<u16, AppError>(AppError::NotFound),
{
    if updated {
        Ok(STATUS_OK)
    } else {
        Err(AppError::NotFound)
    }
}

} // verus!
