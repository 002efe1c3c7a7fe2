//! In-memory user and task stores.
//!
//! The stores model the two datastore collections as vectors of records with
//! a counter for assigning identifiers. The user store enforces the unique
//! email constraint; every task-store operation that reads or mutates by
//! identifier also filters by owner, so authorization is a property of the
//! query itself.

use vstd::prelude::*;

use crate::todo::{apply_patch, Todo, UpdateTodoRequest};
use crate::user::User;

verus! {

/// Some stored user carries this email.
pub open spec fn has_email(users: Seq<User>, email: Seq<char>) -> bool {
    exists|i: int| 0 <= i < users.len() && (#[trigger] users[i].email@) == email
}

/// The store refuses an insert only for a duplicate email; it has no
/// transport to fail on.
#[derive(Clone, Copy, Debug, PartialEq, Eq, Structural)]
pub enum StoreError {
    Duplicate,
}

/// The user collection: records keyed by a unique email, identifiers
/// assigned from a counter.
#[derive(Debug)]
pub struct UserStore {
    pub users: Vec<User>,
    pub next_id: u64,
}

impl UserStore {
    /// Emails are unique, identifiers are unique and below the counter.
    pub open spec fn wf(&self) -> bool {
        &&& forall|i: int, j: int|
            0 <= i < j < self.users@.len() ==> (#[trigger] self.users@[i].email@) != (
            #[trigger] self.users@[j].email@)
        &&& forall|i: int, j: int|
            0 <= i < j < self.users@.len() ==> (#[trigger] self.users@[i].id) != (
            #[trigger] self.users@[j].id)
        &&& forall|i: int| 0 <= i < self.users@.len() ==> (#[trigger] self.users@[i].id) < self.next_id
    }

    /// An empty store.
    pub fn new() -> (s: UserStore)
        ensures
            s.wf(),
            s.users@.len() == 0,
            s.next_id == 1,
    {
        UserStore { users: Vec::new(), next_id: 1 }
    }

    /// Unique lookup by email.
    pub fn find_by_email(&self, email: &String) -> (r: Option<usize>)
        ensures
            match r {
                Some(i) => i < self.users@.len() && self.users@[i as int].email@ == email@,
                None => !has_email(self.users@, email@),
            },
    {
        let mut i: usize = 0;
        while i < self.users.len()
            invariant
                i <= self.users@.len(),
                forall|j: int| 0 <= j < i ==> (#[trigger] self.users@[j].email@) != email@,
            decreases self.users@.len() - i,
        {
            if self.users[i].email == *email {
                return Some(i);
            }
            i = i + 1;
        }
        None
    }

    /// Inserts a new user unless the email is already taken; the unique
    /// email constraint is authoritative even if the caller pre-checked.
    pub fn insert(&mut self, email: String, password_hash: String, name: String, now_ms: i64) -> (r:
        Result<u64, StoreError>)
        requires
            old(self).wf(),
            old(self).next_id < u64::MAX,
        ensures
            final(self).wf(),
            r matches Ok(id) ==> {
                &&& !has_email(old(self).users@, email@)
                &&& id == old(self).next_id
                &&& final(self).next_id == old(self).next_id + 1
                &&& final(self).users@ == old(self).users@.push(
                    User { id, email, password_hash, name, created_at: now_ms, updated_at: now_ms },
                )
            },
            r is Err <==> has_email(old(self).users@, email@),
            r is Err ==> *final(self) == *old(self),
    {
        if self.find_by_email(&email).is_some() {
            return Err(StoreError::Duplicate);
        }
        let id = self.next_id;
        let user = User { id, email, password_hash, name, created_at: now_ms, updated_at: now_ms };
        self.users.push(user);
        self.next_id = id + 1;
        Ok(id)
    }
}

/// Some stored task has this identifier and this owner.
pub open spec fn has_task(tasks: Seq<Todo>, id: u64, owner: u64) -> bool {
    exists|i: int|
        0 <= i < tasks.len() && (#[trigger] tasks[i].id) == id && tasks[i].user_id == owner
}

/// Task identifiers are unique.
pub open spec fn task_ids_unique(tasks: Seq<Todo>) -> bool {
    forall|i: int, j: int|
        0 <= i < j < tasks.len() ==> (#[trigger] tasks[i].id) != (#[trigger] tasks[j].id)
}

/// The task collection: records owned by users, identifiers assigned from a
/// counter.
#[derive(Debug)]
pub struct TaskStore {
    pub tasks: Vec<Todo>,
    pub next_id: u64,
}

/// The tasks a listing by this owner yields.
pub open spec fn owned_tasks(tasks: Seq<Todo>, owner: u64) -> Seq<Todo> {
    tasks.filter(|t: Todo| t.user_id == owner)
}

impl TaskStore {
    /// Identifiers are unique and below the counter.
    pub open spec fn wf(&self) -> bool {
        &&& task_ids_unique(self.tasks@)
        &&& forall|i: int| 0 <= i < self.tasks@.len() ==> (#[trigger] self.tasks@[i].id) < self.next_id
    }

    /// An empty store.
    pub fn new() -> (s: TaskStore)
        ensures
            s.wf(),
            s.tasks@.len() == 0,
            s.next_id == 1,
    {
        TaskStore { tasks: Vec::new(), next_id: 1 }
    }

    /// Creates a task for an owner; it always starts not completed.
    pub fn insert(&mut self, title: String, description: Option<String>, user_id: u64, now_ms: i64) -> (id:
        u64)
        requires
            old(self).wf(),
            old(self).next_id < u64::MAX,
        ensures
            final(self).wf(),
            id == old(self).next_id,
            final(self).next_id == old(self).next_id + 1,
            final(self).tasks@ == old(self).tasks@.push(
                Todo {
                    id,
                    title,
                    description,
                    completed: false,
                    user_id,
                    created_at: now_ms,
                    updated_at: now_ms,
                },
            ),
    {
        let id = self.next_id;
        let task = Todo {
            id,
            title,
            description,
            completed: false,
            user_id,
            created_at: now_ms,
            updated_at: now_ms,
        };
        self.tasks.push(task);
        self.next_id = id + 1;
        id
    }

    /// Unique lookup by identifier and owner together: a task of another
    /// owner is as absent as no task at all.
    pub fn get(&self, id: u64, owner: u64) -> (r: Option<usize>)
        ensures
            match r {
                Some(i) => i < self.tasks@.len() && self.tasks@[i as int].id == id && self.tasks@[
                    i as int
                ].user_id == owner,
                None => !has_task(self.tasks@, id, owner),
            },
    {
        let mut i: usize = 0;
        while i < self.tasks.len()
            invariant
                i <= self.tasks@.len(),
                forall|j: int|
                    0 <= j < i ==> !((#[trigger] self.tasks@[j].id) == id && self.tasks@[j].user_id
                        == owner),
            decreases self.tasks@.len() - i,
        {
            if self.tasks[i].id == id && self.tasks[i].user_id == owner {
                return Some(i);
            }
            i = i + 1;
        }
        None
    }

    /// All tasks of one owner, in insertion order.
    pub fn list(&self, owner: u64) -> (r: Vec<Todo>)
        ensures
            r@ == owned_tasks(self.tasks@, owner),
    {
        let ghost pred = |t: Todo| t.user_id == owner;
        let mut out: Vec<Todo> = Vec::new();
        let mut i: usize = 0;
        while i < self.tasks.len()
            invariant
                i <= self.tasks@.len(),
                out@ == self.tasks@.subrange(0, i as int).filter(pred),
                pred == (|t: Todo| t.user_id == owner),
            decreases self.tasks@.len() - i,
        {
            proof {
                reveal(Seq::filter);
                assert(self.tasks@.subrange(0, i as int + 1).drop_last() =~= self.tasks@.subrange(
                    0,
                    i as int,
                ));
            }
            let t = &self.tasks[i];
            if t.user_id == owner {
                out.push(t.clone());
            }
            i = i + 1;
        }
        proof {
            assert(self.tasks@.subrange(0, self.tasks@.len() as int) =~= self.tasks@);
        }
        out
    }

    /// Partial update by identifier and owner: fields present in the patch
    /// are written, absent ones preserved, `updated_at` refreshed. Reports
    /// whether a task matched; nothing else changes either way.
    pub fn update(&mut self, id: u64, owner: u64, patch: &UpdateTodoRequest, now_ms: i64) -> (matched:
        bool)
        requires
            old(self).wf(),
        ensures
            final(self).wf(),
            final(self).next_id == old(self).next_id,
            final(self).tasks@.len() == old(self).tasks@.len(),
            matched <==> has_task(old(self).tasks@, id, owner),
            !matched ==> *final(self) == *old(self),
            forall|i: int|
                0 <= i < old(self).tasks@.len() && !((#[trigger] old(self).tasks@[i].id) == id
                    && old(self).tasks@[i].user_id == owner) ==> final(self).tasks@[i] == old(
                    self,
                ).tasks@[i],
            forall|i: int|
                0 <= i < old(self).tasks@.len() && (#[trigger] old(self).tasks@[i].id) == id && old(
                    self,
                ).tasks@[i].user_id == owner ==> final(self).tasks@[i] == apply_patch(
                    old(self).tasks@[i],
                    *patch,
                    now_ms,
                ),
    {
        match self.get(id, owner) {
            Some(i) => {
                let cur = &self.tasks[i];
                let updated = Todo {
                    id: cur.id,
                    title: match &patch.title {
                        Some(s) => s.clone(),
                        None => cur.title.clone(),
                    },
                    description: match &patch.description {
                        Some(s) => Some(s.clone()),
                        None => crate::todo::clone_opt_string(&cur.description),
                    },
                    completed: match patch.completed {
                        Some(b) => b,
                        None => cur.completed,
                    },
                    user_id: cur.user_id,
                    created_at: cur.created_at,
                    updated_at: now_ms,
                };
                self.tasks.set(i, updated);
                proof {
                    assert(self.tasks@ =~= old(self).tasks@.update(i as int, self.tasks@[i as int]));
                }
                true
            },
            None => false,
        }
    }

    /// Deletion by identifier and owner; reports whether a task matched.
    pub fn delete(&mut self, id: u64, owner: u64) -> (deleted: bool)
        requires
            old(self).wf(),
        ensures
            final(self).wf(),
            final(self).next_id == old(self).next_id,
            deleted <==> has_task(old(self).tasks@, id, owner),
            !deleted ==> *final(self) == *old(self),
            deleted ==> exists|i: int|
                {
                    &&& 0 <= i < old(self).tasks@.len()
                    &&& (#[trigger] old(self).tasks@[i].id) == id
                    &&& old(self).tasks@[i].user_id == owner
                    &&& final(self).tasks@ == old(self).tasks@.remove(i)
                },
    {
        match self.get(id, owner) {
            Some(i) => {
                self.tasks.remove(i);
                true
            },
            None => false,
        }
    }
}

} // verus!
