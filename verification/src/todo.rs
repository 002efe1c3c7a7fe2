//! Task records and the request/response bodies of the task endpoints.

use vstd::prelude::*;
use vstd::string::*;

use crate::ids::dec_of;

verus! {

/// A stored task record.
#[derive(Debug)]
pub struct Todo {
    /// Server-assigned, immutable, unique.
    pub id: u64,
    pub title: String,
    /// Optional; an empty string is permitted and distinct from absence.
    pub description: Option<String>,
    pub completed: bool,
    /// The owning user; never changes after creation.
    pub user_id: u64,
    /// Milliseconds since the epoch, UTC.
    pub created_at: i64,
    pub updated_at: i64,
}

/// A value-preserving copy of an optional string.
pub fn clone_opt_string(o: &Option<String>) -> (r: Option<String>)
    ensures
        r == *o,
{
    match o {
        Some(s) => Some(s.clone()),
        None => None,
    }
}

impl Clone for Todo {
    fn clone(&self) -> (r: Todo)
        ensures
            r == *self,
    {
        Todo {
            id: self.id,
            title: self.title.clone(),
            description: clone_opt_string(&self.description),
            completed: self.completed,
            user_id: self.user_id,
            created_at: self.created_at,
            updated_at: self.updated_at,
        }
    }
}

/// The body of a task creation request. There is no `completed` field:
/// every task starts out not completed.
#[derive(Debug)]
pub struct CreateTodoRequest {
    pub title: String,
    pub description: Option<String>,
}

/// The body of a task update request: only the fields present are written.
#[derive(Debug)]
pub struct UpdateTodoRequest {
    pub title: Option<String>,
    pub description: Option<String>,
    pub completed: Option<bool>,
}

/// The record a partial update produces: fields present in the patch are
/// overwritten, absent ones keep their prior values, `updated_at` is always
/// refreshed, and the identifier, owner and creation time never change.
pub open spec fn apply_patch(t: Todo, p: UpdateTodoRequest, now_ms: i64) -> Todo {
    Todo {
        id: t.id,
        title: match p.title {
            Some(s) => s,
            None => t.title,
        },
        description: match p.description {
            Some(s) => Some(s),
            None => t.description,
        },
        completed: match p.completed {
            Some(b) => b,
            None => t.completed,
        },
        user_id: t.user_id,
        created_at: t.created_at,
        updated_at: now_ms,
    }
}

/// A task as a client sees it: identifiers rendered as decimal strings, the
/// other fields verbatim.
#[derive(Debug)]
pub struct TodoResponse {
    pub id: String,
    pub title: String,
    pub description: Option<String>,
    pub completed: bool,
    pub user_id: String,
    pub created_at: i64,
    pub updated_at: i64,
}

/// The response presents the record faithfully.
pub open spec fn todo_response_matches(t: Todo, r: TodoResponse) -> bool {
    &&& r.id@ == dec_of(t.id as nat)
    &&& r.title == t.title
    &&& r.description == t.description
    &&& r.completed == t.completed
    &&& r.user_id@ == dec_of(t.user_id as nat)
    &&& r.created_at == t.created_at
    &&& r.updated_at == t.updated_at
}

impl TodoResponse {
    /// Renders a stored task for a response body.
    pub fn of_todo(t: &Todo) -> (r: TodoResponse)
        ensures
            todo_response_matches(*t, r),
    {
        TodoResponse {
            id: crate::ids::u64_to_dec(t.id),
            title: t.title.clone(),
            description: clone_opt_string(&t.description),
            completed: t.completed,
            user_id: crate::ids::u64_to_dec(t.user_id),
            created_at: t.created_at,
            updated_at: t.updated_at,
        }
    }
}

} // verus!
