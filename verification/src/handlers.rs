//! The request handlers: signup, login, and the owner-scoped task CRUD.
//!
//! Each handler is a function of the store, the request body, the caller's
//! principal and the current time; its contract enumerates exactly which
//! outcome each input produces and how the store changes. Every by-id task
//! operation filters by identifier and owner together, so a task of another
//! owner is reported "not found" and never touched.

use vstd::prelude::*;
use vstd::string::*;

use crate::errors::ApiError;
use crate::ids::{dec_of, dec_to_u64, parse_dec, u64_to_dec};
use crate::jwt::{create_jwt, token_of, TOKEN_LIFETIME_SECS};
use crate::middleware::AuthenticatedUser;
use crate::password::{hash_password, password_matches, verify_outcome, verify_password};
use crate::store::{has_email, has_task, owned_tasks, TaskStore, UserStore};
use crate::todo::{
    apply_patch, clone_opt_string, todo_response_matches, CreateTodoRequest, Todo, TodoResponse,
    UpdateTodoRequest,
};
use crate::user::{AuthResponse, CreateUserRequest, LoginRequest, User, UserResponse};

verus! {

/// The issuance second a handler running at `now_ms` puts in a token.
pub open spec fn token_iat(now_ms: i64) -> i64 {
    ((now_ms as int) / 1000) as i64
}

/// The expiry second of a token issued at `now_ms`: 24 hours later.
pub open spec fn token_exp(now_ms: i64) -> i64 {
    ((now_ms as int) / 1000 + TOKEN_LIFETIME_SECS) as i64
}

/// The current time in whole seconds, with the bounds the token service
/// asks of an issuance time.
fn now_seconds(now_ms: i64) -> (now_s: i64)
    requires
        now_ms >= 0,
    ensures
        now_s == token_iat(now_ms),
        0 <= now_s <= i64::MAX - TOKEN_LIFETIME_SECS,
{
    proof {
        vstd::arithmetic::div_mod::lemma_div_is_ordered(now_ms as int, i64::MAX as int, 1000);
    }
    ((now_ms as u64) / 1000) as i64
}

/// A successful signup or login answers with this user's identifier, email,
/// name and creation time, and a token for the identifier and email, minted
/// at `now_ms` with this secret.
pub open spec fn auth_response_for(
    resp: AuthResponse,
    id: u64,
    email: Seq<char>,
    name: Seq<char>,
    created_at: i64,
    now_ms: i64,
    secret: Seq<char>,
) -> bool {
    &&& resp.token@ == token_of(dec_of(id as nat), email, token_exp(now_ms), token_iat(now_ms), secret)
    &&& resp.token@.len() > 0
    &&& resp.user.id@ == dec_of(id as nat)
    &&& resp.user.email@ == email
    &&& resp.user.name@ == name
    &&& resp.user.created_at == created_at
}

/// Signup stored exactly one new user: the old records stand unchanged, and
/// the new one carries the requested email and name, a hash the requested
/// password verifies against, and the request time as both timestamps.
pub open spec fn signup_stored(
    pre: Seq<User>,
    post: Seq<User>,
    request: CreateUserRequest,
    id: u64,
    now_ms: i64,
) -> bool {
    &&& !has_email(pre, request.email@)
    &&& post.len() == pre.len() + 1
    &&& post == pre.push(post.last())
    &&& post.last().id == id
    &&& post.last().email == request.email
    &&& post.last().name == request.name
    &&& post.last().created_at == now_ms
    &&& post.last().updated_at == now_ms
    &&& password_matches(request.password@, post.last().password_hash@)
}

/// Signup. Refuses an email that is already stored and changes nothing
/// then; otherwise hashes the password, stores the user, and answers with a
/// token and the user's public face.
pub fn signup(
    store: &mut UserStore,
    request: &CreateUserRequest,
    jwt_secret: &str,
    now_ms: i64,
) -> (r: Result<AuthResponse, ApiError>)
    requires
        old(store).wf(),
        old(store).next_id < u64::MAX,
        now_ms >= 0,
    ensures
        final(store).wf(),
        r == Err::<AuthResponse, ApiError>(ApiError::EmailTaken) <==> has_email(
            old(store).users@,
            request.email@,
        ),
        r is Err ==> (r == Err::<AuthResponse, ApiError>(ApiError::EmailTaken) || r == Err::<
            AuthResponse,
            ApiError,
        >(ApiError::HashingFailed) || r == Err::<AuthResponse, ApiError>(
            ApiError::TokenCreateFailed,
        )),
        (r == Err::<AuthResponse, ApiError>(ApiError::EmailTaken) || r == Err::<
            AuthResponse,
            ApiError,
        >(ApiError::HashingFailed)) ==> *final(store) == *old(store),
        (r is Ok || r == Err::<AuthResponse, ApiError>(ApiError::TokenCreateFailed)) ==> {
            &&& signup_stored(
                old(store).users@,
                final(store).users@,
                *request,
                old(store).next_id,
                now_ms,
            )
            &&& final(store).next_id == old(store).next_id + 1
        },
        r matches Ok(resp) ==> auth_response_for(
            resp,
            old(store).next_id,
            request.email@,
            request.name@,
            now_ms,
            now_ms,
            jwt_secret@,
        ),
{
    let now_s = now_seconds(now_ms);
    if store.find_by_email(&request.email).is_some() {
        return Err(ApiError::EmailTaken);
    }
    let password_hash = match hash_password(request.password.as_str()) {
        Ok(h) => h,
        Err(_) => {
            return Err(ApiError::HashingFailed);
        },
    };
    let id = match store.insert(
        request.email.clone(),
        password_hash,
        request.name.clone(),
        now_ms,
    ) {
        Ok(id) => id,
        Err(_) => {
            return Err(ApiError::UserCreateFailed);
        },
    };
    let token = match create_jwt(u64_to_dec(id), request.email.clone(), jwt_secret, now_s) {
        Ok(t) => t,
        Err(_) => {
            return Err(ApiError::TokenCreateFailed);
        },
    };
    let user = UserResponse {
        id: u64_to_dec(id),
        email: request.email.clone(),
        name: request.name.clone(),
        created_at: now_ms,
    };
    Ok(AuthResponse { token, user })
}

/// The store holds a user with this email whose hash the password verifies
/// against: the condition under which login owes success.
pub open spec fn login_accepts(users: Seq<User>, email: Seq<char>, password: Seq<char>) -> bool {
    exists|i: int|
        0 <= i < users.len() && (#[trigger] users[i].email@) == email && password_matches(
            password,
            users[i].password_hash@,
        )
}

/// A successful login answers for the (unique) stored user with the
/// requested email.
pub open spec fn login_response_for(
    users: Seq<User>,
    request: LoginRequest,
    resp: AuthResponse,
    now_ms: i64,
    secret: Seq<char>,
) -> bool {
    exists|i: int|
        {
            &&& 0 <= i < users.len()
            &&& (#[trigger] users[i].email@) == request.email@
            &&& password_matches(request.password@, users[i].password_hash@)
            &&& auth_response_for(
                resp,
                users[i].id,
                users[i].email@,
                users[i].name@,
                users[i].created_at,
                now_ms,
                secret,
            )
        }
}

/// Login. Succeeds exactly when a stored user carries the email and the
/// password verifies (token signing aside); unknown email and wrong
/// password are deliberately indistinguishable.
pub fn login(store: &UserStore, request: &LoginRequest, jwt_secret: &str, now_ms: i64) -> (r:
    Result<AuthResponse, ApiError>)
    requires
        store.wf(),
        now_ms >= 0,
    ensures
        (r is Ok || r == Err::<AuthResponse, ApiError>(ApiError::TokenCreateFailed))
            <==> login_accepts(store.users@, request.email@, request.password@),
        r == Err::<AuthResponse, ApiError>(ApiError::InvalidCredentials) <==> (!has_email(
            store.users@,
            request.email@,
        ) || exists|i: int|
            0 <= i < store.users@.len() && (#[trigger] store.users@[i].email@) == request.email@
                && verify_outcome(request.password@, store.users@[i].password_hash@) == Some(false)),
        r == Err::<AuthResponse, ApiError>(ApiError::VerificationFailed) <==> exists|i: int|
            0 <= i < store.users@.len() && (#[trigger] store.users@[i].email@) == request.email@
                && verify_outcome(request.password@, store.users@[i].password_hash@) is None,
        r is Err ==> (r == Err::<AuthResponse, ApiError>(ApiError::InvalidCredentials) || r
            == Err::<AuthResponse, ApiError>(ApiError::VerificationFailed) || r == Err::<
            AuthResponse,
            ApiError,
        >(ApiError::TokenCreateFailed)),
        r matches Ok(resp) ==> login_response_for(
            store.users@,
            *request,
            resp,
            now_ms,
            jwt_secret@,
        ),
{
    let now_s = now_seconds(now_ms);
    let idx = match store.find_by_email(&request.email) {
        Some(i) => i,
        None => {
            return Err(ApiError::InvalidCredentials);
        },
    };
    let u = &store.users[idx];
    match verify_password(request.password.as_str(), u.password_hash.as_str()) {
        Ok(true) => {
            let token = match create_jwt(u64_to_dec(u.id), u.email.clone(), jwt_secret, now_s) {
                Ok(t) => t,
                Err(_) => {
                    return Err(ApiError::TokenCreateFailed);
                },
            };
            Ok(AuthResponse { token, user: UserResponse::of_user(u) })
        },
        Ok(false) => Err(ApiError::InvalidCredentials),
        Err(_) => Err(ApiError::VerificationFailed),
    }
}

/// Task creation. The caller's identifier must parse; the new task gets the
/// next identifier, the requested title and description, the caller as its
/// immutable owner, and starts not completed whatever the client sent.
pub fn create_todo(
    store: &mut TaskStore,
    request: &CreateTodoRequest,
    user: &AuthenticatedUser,
    now_ms: i64,
) -> (r: Result<TodoResponse, ApiError>)
    requires
        old(store).wf(),
        old(store).next_id < u64::MAX,
    ensures
        final(store).wf(),
        r is Err <==> parse_dec(user.user_id@) is None,
        r matches Err(e) ==> e == ApiError::InvalidUserId && *final(store) == *old(store),
        r matches Ok(resp) ==> ({
            &&& parse_dec(user.user_id@) matches Some(uid)
            &&& {
            let created = Todo {
                id: old(store).next_id,
                title: request.title,
                description: request.description,
                completed: false,
                user_id: uid,
                created_at: now_ms,
                updated_at: now_ms,
            };
            &&& final(store).tasks@ == old(store).tasks@.push(created)
            &&& final(store).next_id == old(store).next_id + 1
            &&& todo_response_matches(created, resp)
            }
        }),
{
    let uid = match dec_to_u64(user.user_id.as_str()) {
        Some(u) => u,
        None => {
            return Err(ApiError::InvalidUserId);
        },
    };
    let id = store.insert(
        request.title.clone(),
        clone_opt_string(&request.description),
        uid,
        now_ms,
    );
    Ok(TodoResponse {
        id: u64_to_dec(id),
        title: request.title.clone(),
        description: clone_opt_string(&request.description),
        completed: false,
        user_id: u64_to_dec(uid),
        created_at: now_ms,
        updated_at: now_ms,
    })
}

/// Task listing: exactly the caller's tasks, in insertion order. Another
/// user's tasks never appear.
pub fn get_todos(store: &TaskStore, user: &AuthenticatedUser) -> (r: Result<
    Vec<TodoResponse>,
    ApiError,
>)
    requires
        store.wf(),
    ensures
        r is Err <==> parse_dec(user.user_id@) is None,
        r matches Err(e) ==> e == ApiError::InvalidUserId,
        r matches Ok(list) ==> ({
            &&& parse_dec(user.user_id@) matches Some(uid)
            &&& {
            let owned = owned_tasks(store.tasks@, uid);
            &&& list@.len() == owned.len()
            &&& forall|i: int|
                0 <= i < owned.len() ==> todo_response_matches(owned[i], #[trigger] list@[i])
            }
        }),
{
    let uid = match dec_to_u64(user.user_id.as_str()) {
        Some(u) => u,
        None => {
            return Err(ApiError::InvalidUserId);
        },
    };
    let tasks = store.list(uid);
    let mut out: Vec<TodoResponse> = Vec::new();
    let mut i: usize = 0;
    while i < tasks.len()
        invariant
            i <= tasks@.len(),
            out@.len() == i,
            forall|j: int|
                0 <= j < i ==> todo_response_matches(tasks@[j], #[trigger] out@[j]),
        decreases tasks@.len() - i,
    {
        out.push(TodoResponse::of_todo(&tasks[i]));
        i = i + 1;
    }
    Ok(out)
}

/// Single-task read by identifier, scoped to the caller: a task that does
/// not exist and a task of another owner are both "not found".
pub fn get_todo(store: &TaskStore, id: &str, user: &AuthenticatedUser) -> (r: Result<
    TodoResponse,
    ApiError,
>)
    requires
        store.wf(),
    ensures
        r == Err::<TodoResponse, ApiError>(ApiError::InvalidTodoId) <==> parse_dec(id@) is None,
        r == Err::<TodoResponse, ApiError>(ApiError::InvalidUserId) <==> (parse_dec(id@) is Some
            && parse_dec(user.user_id@) is None),
        r == Err::<TodoResponse, ApiError>(ApiError::TodoNotFound) <==> (parse_dec(id@) matches Some(
            tid,
        ) && parse_dec(user.user_id@) matches Some(uid) && !has_task(store.tasks@, tid, uid)),
        r is Ok <==> (parse_dec(id@) matches Some(tid) && parse_dec(user.user_id@) matches Some(uid)
            && has_task(store.tasks@, tid, uid)),
        r matches Ok(resp) ==> (parse_dec(id@) matches Some(tid) && parse_dec(
            user.user_id@,
        ) matches Some(uid) && exists|i: int|
            0 <= i < store.tasks@.len() && (#[trigger] store.tasks@[i].id) == tid
                && store.tasks@[i].user_id == uid && todo_response_matches(store.tasks@[i], resp)),
{
    let tid = match dec_to_u64(id) {
        Some(t) => t,
        None => {
            return Err(ApiError::InvalidTodoId);
        },
    };
    let uid = match dec_to_u64(user.user_id.as_str()) {
        Some(u) => u,
        None => {
            return Err(ApiError::InvalidUserId);
        },
    };
    match store.get(tid, uid) {
        Some(i) => Ok(TodoResponse::of_todo(&store.tasks[i])),
        None => Err(ApiError::TodoNotFound),
    }
}

/// Partial update by identifier, scoped to the caller. Only fields present
/// in the body are written; the rest keep their prior values; `updated_at`
/// is always refreshed. A miss (absent task or another owner) is "not
/// found" and changes nothing.
pub fn update_todo(
    store: &mut TaskStore,
    id: &str,
    request: &UpdateTodoRequest,
    user: &AuthenticatedUser,
    now_ms: i64,
) -> (r: Result<TodoResponse, ApiError>)
    requires
        old(store).wf(),
    ensures
        final(store).wf(),
        final(store).next_id == old(store).next_id,
        r == Err::<TodoResponse, ApiError>(ApiError::InvalidTodoId) <==> parse_dec(id@) is None,
        r == Err::<TodoResponse, ApiError>(ApiError::InvalidUserId) <==> (parse_dec(id@) is Some
            && parse_dec(user.user_id@) is None),
        r == Err::<TodoResponse, ApiError>(ApiError::TodoNotFound) <==> (parse_dec(id@) matches Some(
            tid,
        ) && parse_dec(user.user_id@) matches Some(uid) && !has_task(old(store).tasks@, tid, uid)),
        r is Err ==> (r == Err::<TodoResponse, ApiError>(ApiError::InvalidTodoId) || r == Err::<
            TodoResponse,
            ApiError,
        >(ApiError::InvalidUserId) || r == Err::<TodoResponse, ApiError>(ApiError::TodoNotFound)),
        r is Err ==> *final(store) == *old(store),
        r is Ok <==> (parse_dec(id@) matches Some(tid) && parse_dec(user.user_id@) matches Some(uid)
            && has_task(old(store).tasks@, tid, uid)),
        r matches Ok(resp) ==> (parse_dec(id@) matches Some(tid) && parse_dec(
            user.user_id@,
        ) matches Some(uid) && {
            &&& final(store).tasks@.len() == old(store).tasks@.len()
            &&& forall|i: int|
                0 <= i < old(store).tasks@.len() && !((#[trigger] old(store).tasks@[i].id) == tid
                    && old(store).tasks@[i].user_id == uid) ==> final(store).tasks@[i] == old(
                    store,
                ).tasks@[i]
            &&& forall|i: int|
                0 <= i < old(store).tasks@.len() && (#[trigger] old(store).tasks@[i].id) == tid
                    && old(store).tasks@[i].user_id == uid ==> {
                    &&& final(store).tasks@[i] == apply_patch(
                        old(store).tasks@[i],
                        *request,
                        now_ms,
                    )
                    &&& todo_response_matches(final(store).tasks@[i], resp)
                    &&& now_ms > old(store).tasks@[i].updated_at ==> final(store).tasks@[
                        i
                    ].updated_at > old(store).tasks@[i].updated_at
                    &&& now_ms >= old(store).tasks@[i].created_at ==> final(store).tasks@[
                        i
                    ].updated_at >= final(store).tasks@[i].created_at
                }
        }),
{
    let tid = match dec_to_u64(id) {
        Some(t) => t,
        None => {
            return Err(ApiError::InvalidTodoId);
        },
    };
    let uid = match dec_to_u64(user.user_id.as_str()) {
        Some(u) => u,
        None => {
            return Err(ApiError::InvalidUserId);
        },
    };
    let matched = store.update(tid, uid, request, now_ms);
    if !matched {
        return Err(ApiError::TodoNotFound);
    }
    proof {
        let j = choose|j: int|
            0 <= j < old(store).tasks@.len() && (#[trigger] old(store).tasks@[j].id) == tid && old(
                store,
            ).tasks@[j].user_id == uid;
        assert(store.tasks@[j].id == tid && store.tasks@[j].user_id == uid);
        assert(has_task(store.tasks@, tid, uid));
    }
    match store.get(tid, uid) {
        Some(i) => {
            let resp = TodoResponse::of_todo(&store.tasks[i]);
            proof {
                assert forall|j: int|
                    0 <= j < old(store).tasks@.len() && (#[trigger] old(store).tasks@[j].id) == tid
                        && old(store).tasks@[j].user_id == uid implies store.tasks@[j]
                    == apply_patch(old(store).tasks@[j], *request, now_ms)
                    && todo_response_matches(store.tasks@[j], resp) by {
                    assert(store.tasks@[j] == apply_patch(old(store).tasks@[j], *request, now_ms));
                    assert(store.tasks@[j].id == tid);
                    if j != i as int {
                        assert(store.tasks@[j].id != store.tasks@[i as int].id);
                        assert(false);
                    }
                }
            }
            Ok(resp)
        },
        None => Err(ApiError::TodoNotFoundAfterUpdate),
    }
}

/// Deletion by identifier, scoped to the caller. A miss (absent task or
/// another owner) is "not found" and changes nothing.
pub fn delete_todo(store: &mut TaskStore, id: &str, user: &AuthenticatedUser) -> (r: Result<
    String,
    ApiError,
>)
    requires
        old(store).wf(),
    ensures
        final(store).wf(),
        final(store).next_id == old(store).next_id,
        r == Err::<String, ApiError>(ApiError::InvalidTodoId) <==> parse_dec(id@) is None,
        r == Err::<String, ApiError>(ApiError::InvalidUserId) <==> (parse_dec(id@) is Some
            && parse_dec(user.user_id@) is None),
        r == Err::<String, ApiError>(ApiError::TodoNotFound) <==> (parse_dec(id@) matches Some(tid)
            && parse_dec(user.user_id@) matches Some(uid) && !has_task(old(store).tasks@, tid, uid)),
        r is Err ==> (r == Err::<String, ApiError>(ApiError::InvalidTodoId) || r == Err::<
            String,
            ApiError,
        >(ApiError::InvalidUserId) || r == Err::<String, ApiError>(ApiError::TodoNotFound)),
        r is Err ==> *final(store) == *old(store),
        r is Ok <==> (parse_dec(id@) matches Some(tid) && parse_dec(user.user_id@) matches Some(uid)
            && has_task(old(store).tasks@, tid, uid)),
        r matches Ok(msg) ==> msg@ == "Todo deleted successfully"@,
        r is Ok ==> (parse_dec(id@) matches Some(tid) && parse_dec(user.user_id@) matches Some(uid)
            && exists|i: int|
            {
                &&& 0 <= i < old(store).tasks@.len()
                &&& (#[trigger] old(store).tasks@[i].id) == tid
                &&& old(store).tasks@[i].user_id == uid
                &&& final(store).tasks@ == old(store).tasks@.remove(i)
            }),
{
    let tid = match dec_to_u64(id) {
        Some(t) => t,
        None => {
            return Err(ApiError::InvalidTodoId);
        },
    };
    let uid = match dec_to_u64(user.user_id.as_str()) {
        Some(u) => u,
        None => {
            return Err(ApiError::InvalidUserId);
        },
    };
    let deleted = store.delete(tid, uid);
    if !deleted {
        return Err(ApiError::TodoNotFound);
    }
    Ok(String::from_str("Todo deleted successfully"))
}

} // verus!
