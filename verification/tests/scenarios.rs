//! End-to-end scenarios over the in-memory stores, with the real hashing
//! and signing crates doing the outside work.

use todo_core::config::Config;
use todo_core::errors::{ApiError, AuthError, ErrorResponse, TokenError};
use todo_core::handlers::{
    create_todo, delete_todo, get_todo, get_todos, login, signup, update_todo,
};
use todo_core::jwt::{create_jwt, verify_jwt};
use todo_core::middleware::{authenticate, extract_bearer, AuthenticatedUser};
use todo_core::store::{TaskStore, UserStore};
use todo_core::todo::{CreateTodoRequest, UpdateTodoRequest};
use todo_core::user::{CreateUserRequest, LoginRequest, User};

const NOW_MS: i64 = 1_700_000_000_000;
const SECRET: &str = "test_secret";

fn signup_req(email: &str, password: &str, name: &str) -> CreateUserRequest {
    CreateUserRequest {
        email: email.to_string(),
        password: password.to_string(),
        name: name.to_string(),
    }
}

fn login_req(email: &str, password: &str) -> LoginRequest {
    LoginRequest { email: email.to_string(), password: password.to_string() }
}

fn principal(user_id: &str) -> AuthenticatedUser {
    AuthenticatedUser { user_id: user_id.to_string(), email: "a@b.com".to_string() }
}

#[test]
fn signup_then_login() {
    let mut users = UserStore::new();
    let req = signup_req("a@b.com", "pw1", "A");
    let resp = signup(&mut users, &req, SECRET, NOW_MS).expect("signup should succeed");
    assert_eq!(resp.user.email, "a@b.com");
    assert!(!resp.token.is_empty());

    let lresp = login(&users, &login_req("a@b.com", "pw1"), SECRET, NOW_MS + 1000)
        .expect("login should succeed");
    assert_eq!(lresp.user.id, resp.user.id);
    assert_eq!(lresp.user.email, "a@b.com");
    assert_eq!(lresp.user.name, "A");
}

#[test]
fn duplicate_signup() {
    let mut users = UserStore::new();
    signup(&mut users, &signup_req("a@b.com", "pw1", "A"), SECRET, NOW_MS).unwrap();
    let second = signup(&mut users, &signup_req("a@b.com", "pw2", "B"), SECRET, NOW_MS + 5);
    assert_eq!(second.unwrap_err(), ApiError::EmailTaken);
    assert_eq!(
        ApiError::EmailTaken.message(),
        "User with this email already exists"
    );
    assert_eq!(users.users.len(), 1);
}

#[test]
fn wrong_password_and_unknown_user_indistinguishable() {
    let mut users = UserStore::new();
    signup(&mut users, &signup_req("a@b.com", "pw1", "A"), SECRET, NOW_MS).unwrap();

    let wrong = login(&users, &login_req("a@b.com", "WRONG"), SECRET, NOW_MS).unwrap_err();
    let unknown = login(&users, &login_req("nobody@x", "pw1"), SECRET, NOW_MS).unwrap_err();
    assert_eq!(wrong, ApiError::InvalidCredentials);
    assert_eq!(unknown, ApiError::InvalidCredentials);
    assert_eq!(wrong.message(), unknown.message());
    assert_eq!(wrong.message(), "Invalid credentials");
}

#[test]
fn task_isolation() {
    let mut tasks = TaskStore::new();
    let alice = principal("1");
    let bob = principal("2");

    let created = create_todo(
        &mut tasks,
        &CreateTodoRequest { title: "buy milk".to_string(), description: None },
        &alice,
        NOW_MS,
    )
    .expect("create should succeed");
    assert!(!created.completed);

    let foreign = get_todo(&tasks, &created.id, &bob).unwrap_err();
    assert_eq!(foreign, ApiError::TodoNotFound);
    assert_eq!(foreign.message(), "Todo not found");

    let listing = get_todos(&tasks, &bob).unwrap();
    assert!(listing.is_empty());

    let upd = update_todo(
        &mut tasks,
        &created.id,
        &UpdateTodoRequest { title: None, description: None, completed: Some(true) },
        &bob,
        NOW_MS + 10,
    );
    assert_eq!(upd.unwrap_err(), ApiError::TodoNotFound);
    let del = delete_todo(&mut tasks, &created.id, &bob);
    assert_eq!(del.unwrap_err(), ApiError::TodoNotFound);

    // Nothing changed for the owner.
    let mine = get_todo(&tasks, &created.id, &alice).unwrap();
    assert_eq!(mine.title, "buy milk");
    assert!(!mine.completed);
}

#[test]
fn partial_update() {
    let mut tasks = TaskStore::new();
    let alice = principal("1");
    let created = create_todo(
        &mut tasks,
        &CreateTodoRequest { title: "buy milk".to_string(), description: None },
        &alice,
        NOW_MS,
    )
    .unwrap();
    assert!(!created.completed);

    let updated = update_todo(
        &mut tasks,
        &created.id,
        &UpdateTodoRequest { title: None, description: None, completed: Some(true) },
        &alice,
        NOW_MS + 500,
    )
    .expect("update should succeed");
    assert_eq!(updated.title, "buy milk");
    assert_eq!(updated.description, None);
    assert!(updated.completed);
    assert!(updated.updated_at > updated.created_at);
    assert_eq!(updated.created_at, NOW_MS);
    assert_eq!(updated.updated_at, NOW_MS + 500);
}

#[test]
fn update_preserves_unnamed_fields() {
    let mut tasks = TaskStore::new();
    let alice = principal("1");
    let created = create_todo(
        &mut tasks,
        &CreateTodoRequest {
            title: "write report".to_string(),
            description: Some("for Monday".to_string()),
        },
        &alice,
        NOW_MS,
    )
    .unwrap();

    let updated = update_todo(
        &mut tasks,
        &created.id,
        &UpdateTodoRequest {
            title: Some("write the report".to_string()),
            description: None,
            completed: None,
        },
        &alice,
        NOW_MS + 7,
    )
    .unwrap();
    assert_eq!(updated.title, "write the report");
    assert_eq!(updated.description, Some("for Monday".to_string()));
    assert!(!updated.completed);
    assert_eq!(updated.user_id, "1");
}

#[test]
fn delete_then_gone() {
    let mut tasks = TaskStore::new();
    let alice = principal("1");
    let created = create_todo(
        &mut tasks,
        &CreateTodoRequest { title: "t".to_string(), description: None },
        &alice,
        NOW_MS,
    )
    .unwrap();
    let msg = delete_todo(&mut tasks, &created.id, &alice).unwrap();
    assert_eq!(msg, "Todo deleted successfully");
    assert_eq!(
        get_todo(&tasks, &created.id, &alice).unwrap_err(),
        ApiError::TodoNotFound
    );
    assert_eq!(
        delete_todo(&mut tasks, &created.id, &alice).unwrap_err(),
        ApiError::TodoNotFound
    );
}

#[test]
fn missing_or_malformed_auth() {
    let config = Config::default();
    let now_s = NOW_MS / 1000;

    let missing = authenticate(Some(&config), None, now_s).unwrap_err();
    assert_eq!(missing, AuthError::MissingHeader);
    assert_eq!(missing.message(), "Missing Authorization header");
    assert_eq!(missing.status(), 401);

    let malformed = authenticate(Some(&config), Some("Token abc"), now_s).unwrap_err();
    assert_eq!(malformed, AuthError::InvalidFormat);
    assert_eq!(malformed.message(), "Invalid Authorization header format");

    let garbage = authenticate(Some(&config), Some("Bearer garbage"), now_s).unwrap_err();
    assert_eq!(garbage, AuthError::InvalidToken);
    assert_eq!(garbage.message(), "Invalid or expired token");

    let no_config = authenticate(None, Some("Bearer x"), now_s).unwrap_err();
    assert_eq!(no_config, AuthError::ConfigNotFound);
    assert_eq!(no_config.message(), "Config not found");
    assert_eq!(no_config.status(), 500);
}

#[test]
fn bearer_prefix_is_exact() {
    assert!(extract_bearer("Bearer abc") == Some("abc"));
    assert!(extract_bearer("Bearer ") == Some(""));
    assert!(extract_bearer("bearer abc").is_none());
    assert!(extract_bearer("BearerX abc").is_none());
    assert!(extract_bearer("Bear").is_none());
    assert!(extract_bearer("").is_none());
}

#[test]
fn token_round_trip_and_expiry() {
    let now_s = NOW_MS / 1000;
    let token = create_jwt("42".to_string(), "a@b.com".to_string(), SECRET, now_s).unwrap();
    assert!(!token.is_empty());
    // The token is not any of its inputs echoed back.
    assert_ne!(token, "42");
    assert_ne!(token, "a@b.com");
    assert_ne!(token, SECRET);

    let claims = verify_jwt(&token, SECRET, now_s + 10).unwrap();
    assert_eq!(claims.sub, "42");
    assert_eq!(claims.email, "a@b.com");
    assert_eq!(claims.iat, now_s);
    assert_eq!(claims.exp, now_s + 86_400);

    // Exactly at expiry and beyond, verification fails.
    assert_eq!(
        verify_jwt(&token, SECRET, now_s + 86_400).unwrap_err(),
        TokenError::InvalidToken
    );
    // A different secret fails.
    assert!(verify_jwt(&token, "other_secret", now_s).is_err());
    // Tampering fails.
    let mut tampered = token.clone();
    tampered.push('x');
    assert!(verify_jwt(&tampered, SECRET, now_s).is_err());
}

#[test]
fn expired_token_rejected_by_authenticator() {
    let config = Config::default();
    let now_s = NOW_MS / 1000;
    let token = create_jwt("7".to_string(), "a@b.com".to_string(), "default_secret_change_me", now_s)
        .unwrap();
    let header = format!("Bearer {token}");

    let fresh = authenticate(Some(&config), Some(&header), now_s + 1).unwrap();
    assert_eq!(fresh.user_id, "7");
    assert_eq!(fresh.email, "a@b.com");

    let stale = authenticate(Some(&config), Some(&header), now_s + 86_400).unwrap_err();
    assert_eq!(stale, AuthError::InvalidToken);
}

#[test]
fn signup_response_is_password_independent() {
    // Two signups that differ only in the password answer with identical
    // bodies: nothing of the password or its hash reaches a response.
    let mut store_a = UserStore::new();
    let mut store_b = UserStore::new();
    let ra = signup(&mut store_a, &signup_req("a@b.com", "pw-one", "A"), SECRET, NOW_MS).unwrap();
    let rb = signup(&mut store_b, &signup_req("a@b.com", "pw-two", "A"), SECRET, NOW_MS).unwrap();
    assert_eq!(ra.token, rb.token);
    assert_eq!(ra.user.id, rb.user.id);
    assert_eq!(ra.user.email, rb.user.email);
    assert_eq!(ra.user.name, rb.user.name);
    assert_eq!(ra.user.created_at, rb.user.created_at);
}

#[test]
fn stored_hash_is_not_the_password() {
    let mut users = UserStore::new();
    signup(&mut users, &signup_req("a@b.com", "pw1", "A"), SECRET, NOW_MS).unwrap();
    let stored = &users.users[0];
    assert_ne!(stored.password_hash, "pw1");
    // A modern self-describing hash, not a bare digest of fixed small size.
    assert!(stored.password_hash.len() > 30);
}

#[test]
fn malformed_stored_hash_reports_verification_failure() {
    let mut users = UserStore::new();
    users.users.push(User {
        id: 1,
        email: "a@b.com".to_string(),
        password_hash: "not-a-hash".to_string(),
        name: "A".to_string(),
        created_at: NOW_MS,
        updated_at: NOW_MS,
    });
    users.next_id = 2;
    let err = login(&users, &login_req("a@b.com", "pw1"), SECRET, NOW_MS).unwrap_err();
    assert_eq!(err, ApiError::VerificationFailed);
    assert_eq!(err.message(), "Password verification failed");
}

#[test]
fn invalid_ids_are_rejected() {
    let mut tasks = TaskStore::new();
    let alice = principal("1");
    let bogus = principal("not-a-number");

    let err = create_todo(
        &mut tasks,
        &CreateTodoRequest { title: "t".to_string(), description: None },
        &bogus,
        NOW_MS,
    )
    .unwrap_err();
    assert_eq!(err, ApiError::InvalidUserId);
    assert_eq!(err.message(), "Invalid user ID");
    assert_eq!(get_todos(&tasks, &bogus).unwrap_err(), ApiError::InvalidUserId);

    let err = get_todo(&tasks, "abc", &alice).unwrap_err();
    assert_eq!(err, ApiError::InvalidTodoId);
    assert_eq!(err.message(), "Invalid todo ID");
    let err = update_todo(
        &mut tasks,
        "",
        &UpdateTodoRequest { title: None, description: None, completed: None },
        &alice,
        NOW_MS,
    )
    .unwrap_err();
    assert_eq!(err, ApiError::InvalidTodoId);
    let err = delete_todo(&mut tasks, "12x", &alice).unwrap_err();
    assert_eq!(err, ApiError::InvalidTodoId);
}

#[test]
fn listing_keeps_insertion_order_and_owner_scope() {
    let mut tasks = TaskStore::new();
    let alice = principal("1");
    let bob = principal("2");
    let first = create_todo(
        &mut tasks,
        &CreateTodoRequest { title: "first".to_string(), description: None },
        &alice,
        NOW_MS,
    )
    .unwrap();
    create_todo(
        &mut tasks,
        &CreateTodoRequest { title: "bobs".to_string(), description: None },
        &bob,
        NOW_MS + 1,
    )
    .unwrap();
    let second = create_todo(
        &mut tasks,
        &CreateTodoRequest { title: "second".to_string(), description: None },
        &alice,
        NOW_MS + 2,
    )
    .unwrap();

    let mine = get_todos(&tasks, &alice).unwrap();
    assert_eq!(mine.len(), 2);
    assert_eq!(mine[0].title, "first");
    assert_eq!(mine[0].id, first.id);
    assert_eq!(mine[1].title, "second");
    assert_eq!(mine[1].id, second.id);
    assert!(mine.iter().all(|t| t.user_id == "1"));
}

#[test]
fn error_bodies_carry_exact_strings() {
    assert_eq!(ErrorResponse::of_api(&ApiError::DatabaseError).error, "Database error");
    assert_eq!(ErrorResponse::of_api(&ApiError::HashingFailed).error, "Failed to hash password");
    assert_eq!(ErrorResponse::of_api(&ApiError::UserCreateFailed).error, "Failed to create user");
    assert_eq!(ErrorResponse::of_api(&ApiError::TokenCreateFailed).error, "Failed to create token");
    assert_eq!(
        ErrorResponse::of_api(&ApiError::TodoNotFoundAfterUpdate).error,
        "Todo not found after update"
    );
    assert_eq!(ErrorResponse::of_api(&ApiError::FetchTodoFailed).error, "Failed to fetch todo");
    assert_eq!(ErrorResponse::of_api(&ApiError::FetchTodosFailed).error, "Failed to fetch todos");
    assert_eq!(ErrorResponse::of_api(&ApiError::UpdateTodoFailed).error, "Failed to update todo");
    assert_eq!(
        ErrorResponse::of_api(&ApiError::FetchUpdatedTodoFailed).error,
        "Failed to fetch updated todo"
    );
    assert_eq!(ErrorResponse::of_api(&ApiError::DeleteTodoFailed).error, "Failed to delete todo");
    assert_eq!(
        ErrorResponse::of_auth(&AuthError::InvalidToken).error,
        "Invalid or expired token"
    );
}

#[test]
fn config_defaults() {
    let c = Config::default();
    assert_eq!(c.mongodb_uri, "mongodb://localhost:27017");
    assert_eq!(c.database_name, "todo_rust_db");
    assert_eq!(c.jwt_secret, "default_secret_change_me");
    assert_eq!(c.port, 8000);
    assert_eq!(c.address, "127.0.0.1");
}
