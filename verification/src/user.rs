//! User records and the request/response bodies of the auth endpoints.

use vstd::prelude::*;
use vstd::string::*;

use crate::ids::dec_of;

verus! {

/// A stored user record. The password hash never leaves the server: no
/// response type in this crate has a field for it.
#[derive(Debug)]
pub struct User {
    /// Server-assigned, immutable, unique.
    pub id: u64,
    /// Globally unique across users; matched case-sensitively.
    pub email: String,
    /// Opaque self-describing hash from the password hasher.
    pub password_hash: String,
    pub name: String,
    /// Milliseconds since the epoch, UTC.
    pub created_at: i64,
    pub updated_at: i64,
}

impl Clone for User {
    fn clone(&self) -> (r: User)
        ensures
            r == *self,
    {
        User {
            id: self.id,
            email: self.email.clone(),
            password_hash: self.password_hash.clone(),
            name: self.name.clone(),
            created_at: self.created_at,
            updated_at: self.updated_at,
        }
    }
}

/// The signup request body.
#[derive(Debug)]
pub struct CreateUserRequest {
    pub email: String,
    pub password: String,
    pub name: String,
}

/// The login request body.
#[derive(Debug)]
pub struct LoginRequest {
    pub email: String,
    pub password: String,
}

/// The public face of a user: every field a client may see.
#[derive(Debug)]
pub struct UserResponse {
    /// The user's identifier as a decimal string.
    pub id: String,
    pub email: String,
    pub name: String,
    pub created_at: i64,
}

/// The response of a successful signup or login.
#[derive(Debug)]
pub struct AuthResponse {
    pub token: String,
    pub user: UserResponse,
}

/// The response presents exactly this user: identifier rendered in decimal,
/// the other visible fields verbatim.
pub open spec fn user_response_matches(u: User, r: UserResponse) -> bool {
    &&& r.id@ == dec_of(u.id as nat)
    &&& r.email == u.email
    &&& r.name == u.name
    &&& r.created_at == u.created_at
}

impl UserResponse {
    /// Renders a stored user for a response body.
    pub fn of_user(u: &User) -> (r: UserResponse)
        ensures
            user_response_matches(*u, r),
    {
        UserResponse {
            id: crate::ids::u64_to_dec(u.id),
            email: u.email.clone(),
            name: u.name.clone(),
            created_at: u.created_at,
        }
    }
}

} // verus!
