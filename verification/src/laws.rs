//! The library-wide guarantees, stated once and proved.
//!
//! Each proof function here states a property that spans the contracts of
//! several functions; the properties that concern a single function (a
//! rejected expired token, the completion default of a fresh task, the
//! exact not-found behaviour of each by-id operation) stand in that
//! function's own `ensures`.

use vstd::prelude::*;

use crate::handlers::{auth_response_for, login_accepts, signup_stored};
use crate::store::{has_email, task_ids_unique, UserStore};
use crate::todo::{apply_patch, Todo, UpdateTodoRequest};
use crate::user::{AuthResponse, CreateUserRequest, User};

verus! {

/// User uniqueness: a well-formed user store never holds two users with one
/// email. Together with signup's contract — it refuses an email that is
/// already stored, changes nothing then, and every success stores the email
/// — at most one signup with a given email ever succeeds.
pub proof fn law_user_uniqueness(s: &UserStore)
    requires
        s.wf(),
    ensures
        forall|i: int, j: int|
            0 <= i < j < s.users@.len() ==> (#[trigger] s.users@[i].email@) != (
            #[trigger] s.users@[j].email@),
{
}

/// A successful signup leaves its email stored, so by signup's contract
/// every later signup with the same email answers "already exists" and
/// leaves the store as it was.
pub proof fn law_signup_claims_email(
    pre: Seq<User>,
    post: Seq<User>,
    request: CreateUserRequest,
    id: u64,
    now_ms: i64,
)
    requires
        signup_stored(pre, post, request, id, now_ms),
    ensures
        has_email(post, request.email@),
{
    assert(post[pre.len() as int].email@ == request.email@);
}

/// Authorization isolation: when task identifiers are unique, a task owned
/// by one user is never reachable under another user's identity. With the
/// task handlers' contracts — a (task, caller) pair that no stored task
/// matches answers "Todo not found" and changes nothing — a request by one
/// user against another user's task always misses and mutates nothing.
pub proof fn law_task_isolation(tasks: Seq<Todo>, caller: u64, other: u64, k: int)
    requires
        task_ids_unique(tasks),
        caller != other,
        0 <= k < tasks.len(),
        tasks[k].user_id == other,
    ensures
        !crate::store::has_task(tasks, tasks[k].id, caller),
{
    assert forall|i: int|
        0 <= i < tasks.len() && (#[trigger] tasks[i].id) == tasks[k].id implies tasks[i].user_id
        != caller by {
        if i != k {
            assert(tasks[i].id != tasks[k].id);
        }
    }
}

/// Password opacity: a signup response is fully determined by the assigned
/// identifier, the requested email and name, the time and the secret — the
/// password and its hash contribute nothing. Two signups differing only in
/// their passwords answer with identical bodies, so no response carries a
/// trace of either; and no response type of this crate has a field for a
/// hash at all.
pub proof fn law_password_opacity(
    r1: AuthResponse,
    r2: AuthResponse,
    id: u64,
    email: Seq<char>,
    name: Seq<char>,
    created_at: i64,
    now_ms: i64,
    secret: Seq<char>,
)
    requires
        auth_response_for(r1, id, email, name, created_at, now_ms, secret),
        auth_response_for(r2, id, email, name, created_at, now_ms, secret),
    ensures
        r1.token@ == r2.token@,
        r1.user.id@ == r2.user.id@,
        r1.user.email@ == r2.user.email@,
        r1.user.name@ == r2.user.name@,
        r1.user.created_at == r2.user.created_at,
{
}

/// Partial update preservation: fields outside the patch keep their prior
/// values, the identifier, owner and creation time are untouched, and
/// `updated_at` strictly advances whenever time has.
pub proof fn law_partial_update_preserves(t: Todo, p: UpdateTodoRequest, now_ms: i64)
    requires
        now_ms > t.updated_at,
    ensures
        p.title is None ==> apply_patch(t, p, now_ms).title == t.title,
        p.description is None ==> apply_patch(t, p, now_ms).description == t.description,
        p.completed is None ==> apply_patch(t, p, now_ms).completed == t.completed,
        apply_patch(t, p, now_ms).id == t.id,
        apply_patch(t, p, now_ms).user_id == t.user_id,
        apply_patch(t, p, now_ms).created_at == t.created_at,
        apply_patch(t, p, now_ms).updated_at > t.updated_at,
        apply_patch(t, p, now_ms).updated_at == now_ms,
        now_ms >= t.created_at ==> apply_patch(t, p, now_ms).updated_at >= apply_patch(
            t,
            p,
            now_ms,
        ).created_at,
{
}

/// Signup/login round trip, forward direction: after a successful signup,
/// the store accepts a login with the same email and password — by login's
/// contract the call then succeeds or fails only in token signing, never
/// with "Invalid credentials". The reverse direction is login's own
/// contract: it succeeds only when some stored user carries the email and a
/// hash the password verifies against, and signup is the only operation
/// that stores users.
pub proof fn law_signup_then_login(
    pre: Seq<User>,
    post: Seq<User>,
    request: CreateUserRequest,
    id: u64,
    now_ms: i64,
)
    requires
        signup_stored(pre, post, request, id, now_ms),
    ensures
        login_accepts(post, request.email@, request.password@),
{
    assert(post[pre.len() as int].email@ == request.email@);
}

} // verus!
