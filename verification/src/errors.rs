//! The error taxonomy surfaced to clients.
//!
//! Handlers collapse every internal failure into one of these variants; the
//! exact message strings are the compatibility surface that clients may
//! pattern-match on, so each variant's text is pinned by a contract.

use vstd::prelude::*;
use vstd::string::*;

verus! {

/// A handler-level failure, reported to the client as a JSON error body.
#[derive(Clone, Copy, Debug, PartialEq, Eq, Structural)]
pub enum ApiError {
    /// Signup with an email that is already stored.
    EmailTaken,
    /// A datastore transport failure while looking a user up.
    DatabaseError,
    /// The password hasher failed.
    HashingFailed,
    /// The datastore refused the new user record.
    UserCreateFailed,
    /// The token service could not sign the claims.
    TokenCreateFailed,
    /// Unknown email or wrong password; deliberately one message for both.
    InvalidCredentials,
    /// The stored password hash is malformed.
    VerificationFailed,
    /// A task identifier in the request path does not parse.
    InvalidTodoId,
    /// The caller's identifier from the token subject does not parse.
    InvalidUserId,
    /// No task with the given identifier is owned by the caller.
    TodoNotFound,
    /// A matched task vanished between the update and the re-read.
    TodoNotFoundAfterUpdate,
    /// A datastore transport failure while reading one task.
    FetchTodoFailed,
    /// A datastore transport failure while listing tasks.
    FetchTodosFailed,
    /// A datastore transport failure while writing an update.
    UpdateTodoFailed,
    /// A datastore transport failure while re-reading an updated task.
    FetchUpdatedTodoFailed,
    /// A datastore transport failure while deleting.
    DeleteTodoFailed,
}

impl ApiError {
    /// The exact client-visible message of each variant.
    pub open spec fn spec_message(self) -> Seq<char> {
        match self {
            ApiError::EmailTaken => "User with this email already exists"@,
            ApiError::DatabaseError => "Database error"@,
            ApiError::HashingFailed => "Failed to hash password"@,
            ApiError::UserCreateFailed => "Failed to create user"@,
            ApiError::TokenCreateFailed => "Failed to create token"@,
            ApiError::InvalidCredentials => "Invalid credentials"@,
            ApiError::VerificationFailed => "Password verification failed"@,
            ApiError::InvalidTodoId => "Invalid todo ID"@,
            ApiError::InvalidUserId => "Invalid user ID"@,
            ApiError::TodoNotFound => "Todo not found"@,
            ApiError::TodoNotFoundAfterUpdate => "Todo not found after update"@,
            ApiError::FetchTodoFailed => "Failed to fetch todo"@,
            ApiError::FetchTodosFailed => "Failed to fetch todos"@,
            ApiError::UpdateTodoFailed => "Failed to update todo"@,
            ApiError::FetchUpdatedTodoFailed => "Failed to fetch updated todo"@,
            ApiError::DeleteTodoFailed => "Failed to delete todo"@,
        }
    }

    /// The client-visible message string.
    pub fn message(&self) -> (s: String)
        ensures
            s@ == self.spec_message(),
    {
        match self {
            ApiError::EmailTaken => String::from_str("User with this email already exists"),
            ApiError::DatabaseError => String::from_str("Database error"),
            ApiError::HashingFailed => String::from_str("Failed to hash password"),
            ApiError::UserCreateFailed => String::from_str("Failed to create user"),
            ApiError::TokenCreateFailed => String::from_str("Failed to create token"),
            ApiError::InvalidCredentials => String::from_str("Invalid credentials"),
            ApiError::VerificationFailed => String::from_str("Password verification failed"),
            ApiError::InvalidTodoId => String::from_str("Invalid todo ID"),
            ApiError::InvalidUserId => String::from_str("Invalid user ID"),
            ApiError::TodoNotFound => String::from_str("Todo not found"),
            ApiError::TodoNotFoundAfterUpdate => String::from_str("Todo not found after update"),
            ApiError::FetchTodoFailed => String::from_str("Failed to fetch todo"),
            ApiError::FetchTodosFailed => String::from_str("Failed to fetch todos"),
            ApiError::UpdateTodoFailed => String::from_str("Failed to update todo"),
            ApiError::FetchUpdatedTodoFailed => String::from_str("Failed to fetch updated todo"),
            ApiError::DeleteTodoFailed => String::from_str("Failed to delete todo"),
        }
    }
}

/// A failure of the authenticator, reported before any handler runs.
#[derive(Clone, Copy, Debug, PartialEq, Eq, Structural)]
pub enum AuthError {
    /// The shared configuration (and with it the signing secret) is missing.
    ConfigNotFound,
    /// No `Authorization` header on the request.
    MissingHeader,
    /// The header does not start with the exact `Bearer ` prefix.
    InvalidFormat,
    /// The bearer token is malformed, badly signed, or expired.
    InvalidToken,
}

impl AuthError {
    /// The exact client-visible message of each variant.
    pub open spec fn spec_message(self) -> Seq<char> {
        match self {
            AuthError::ConfigNotFound => "Config not found"@,
            AuthError::MissingHeader => "Missing Authorization header"@,
            AuthError::InvalidFormat => "Invalid Authorization header format"@,
            AuthError::InvalidToken => "Invalid or expired token"@,
        }
    }

    /// The client-visible message string.
    pub fn message(&self) -> (s: String)
        ensures
            s@ == self.spec_message(),
    {
        match self {
            AuthError::ConfigNotFound => String::from_str("Config not found"),
            AuthError::MissingHeader => String::from_str("Missing Authorization header"),
            AuthError::InvalidFormat => String::from_str("Invalid Authorization header format"),
            AuthError::InvalidToken => String::from_str("Invalid or expired token"),
        }
    }

    /// The HTTP status the authenticator answers with: 500 for missing
    /// configuration, 401 for everything else.
    pub fn status(&self) -> (s: u16)
        ensures
            *self == AuthError::ConfigNotFound ==> s == 500,
            *self != AuthError::ConfigNotFound ==> s == 401,
    {
        match self {
            AuthError::ConfigNotFound => 500,
            _ => 401,
        }
    }
}

/// The JSON error body `{ "error": <message> }`.
#[derive(Debug)]
pub struct ErrorResponse {
    pub error: String,
}

impl ErrorResponse {
    /// Builds the body for a handler failure.
    pub fn of_api(e: &ApiError) -> (r: ErrorResponse)
        ensures
            r.error@ == e.spec_message(),
    {
        ErrorResponse { error: e.message() }
    }

    /// Builds the body for an authenticator failure.
    pub fn of_auth(e: &AuthError) -> (r: ErrorResponse)
        ensures
            r.error@ == e.spec_message(),
    {
        ErrorResponse { error: e.message() }
    }
}

/// A token-service failure, in the taxonomy of the token component.
#[derive(Clone, Copy, Debug, PartialEq, Eq, Structural)]
pub enum TokenError {
    /// The signing call failed.
    SigningFailed,
    /// Malformed token, bad signature, algorithm mismatch, or expiry.
    InvalidToken,
}

} // verus!
