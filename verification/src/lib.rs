//! Verified core of a small multi-user task-tracking backend.
//!
//! The library holds the request-level logic of the service: the bearer-token
//! authenticator, the token service, the password-hashing contract, and
//! the owner-scoped CRUD handlers over in-memory user and task stores. The
//! outside world (HTTP framework, clock, hashing and signing crates) is
//! reached only through a handful of trusted wrappers.

pub mod clock;
pub mod config;
pub mod errors;
pub mod ids;
pub mod handlers;
pub mod jwt;
pub mod laws;
pub mod middleware;
pub mod password;
pub mod store;
pub mod todo;
pub mod user;
