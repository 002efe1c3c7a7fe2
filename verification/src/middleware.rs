//! The authenticator: from an `Authorization` header to a principal.
//!
//! Before any task handler runs, the authenticator reads the header, demands the
//! exact `Bearer ` prefix, and checks the remainder with the token service.
//! It does not re-check that the subject still exists in the user store: a
//! token stays good until it expires.

use vstd::prelude::*;
use vstd::string::*;

use crate::config::Config;
use crate::errors::AuthError;
use crate::jwt::{bearer_claims, token_accepted, verify_jwt};

verus! {

/// The principal a verified token yields: the caller's identifier (a
/// decimal string, the token's subject) and email.
#[derive(Debug)]
pub struct AuthenticatedUser {
    pub user_id: String,
    pub email: String,
}

/// The header starts with the seven characters `Bearer `, case-sensitively.
pub open spec fn has_bearer_prefix(h: Seq<char>) -> bool {
    h.len() >= 7 && h.subrange(0, 7) == "Bearer "@
}

/// The token part of a header with the prefix: everything after it.
pub open spec fn bearer_token(h: Seq<char>) -> Seq<char> {
    h.subrange(7, h.len() as int)
}

/// Strips the exact `Bearer ` prefix, or reports that it is absent.
pub fn extract_bearer(header: &str) -> (r: Option<&str>)
    ensures
        r is Some <==> has_bearer_prefix(header@),
        r matches Some(t) ==> t@ == bearer_token(header@),
{
    proof {
        reveal_strlit("Bearer ");
    }
    let n = header.unicode_len();
    if n < 7 {
        return None;
    }
    if header.get_char(0) != 'B' {
        proof {
            assert(header@.subrange(0, 7)[0] == header@[0]);
        }
        return None;
    }
    if header.get_char(1) != 'e' {
        proof {
            assert(header@.subrange(0, 7)[1] == header@[1]);
        }
        return None;
    }
    if header.get_char(2) != 'a' {
        proof {
            assert(header@.subrange(0, 7)[2] == header@[2]);
        }
        return None;
    }
    if header.get_char(3) != 'r' {
        proof {
            assert(header@.subrange(0, 7)[3] == header@[3]);
        }
        return None;
    }
    if header.get_char(4) != 'e' {
        proof {
            assert(header@.subrange(0, 7)[4] == header@[4]);
        }
        return None;
    }
    if header.get_char(5) != 'r' {
        proof {
            assert(header@.subrange(0, 7)[5] == header@[5]);
        }
        return None;
    }
    if header.get_char(6) != ' ' {
        proof {
            assert(header@.subrange(0, 7)[6] == header@[6]);
        }
        return None;
    }
    proof {
        assert(header@.subrange(0, 7) =~= "Bearer "@);
    }
    Some(header.substring_char(7, n))
}

/// The authenticator. Rejections, in order: missing configuration, missing header,
/// wrong prefix, unacceptable token; otherwise the principal carries the
/// token's subject and email.
pub fn authenticate(config: Option<&Config>, auth_header: Option<&str>, now_s: i64) -> (r: Result<
    AuthenticatedUser,
    AuthError,
>)
    ensures
        r == Err::<AuthenticatedUser, AuthError>(AuthError::ConfigNotFound) <==> config is None,
        r == Err::<AuthenticatedUser, AuthError>(AuthError::MissingHeader) <==> (config is Some
            && auth_header is None),
        r == Err::<AuthenticatedUser, AuthError>(AuthError::InvalidFormat) <==> ({
            &&& config is Some
            &&& auth_header matches Some(h)
            &&& !has_bearer_prefix(h@)
        }),
        r == Err::<AuthenticatedUser, AuthError>(AuthError::InvalidToken) <==> ({
            &&& config matches Some(c)
            &&& auth_header matches Some(h)
            &&& has_bearer_prefix(h@)
            &&& !token_accepted(bearer_token(h@), c.jwt_secret@, now_s)
        }),
        r is Ok <==> ({
            &&& config matches Some(c)
            &&& auth_header matches Some(h)
            &&& has_bearer_prefix(h@)
            &&& token_accepted(bearer_token(h@), c.jwt_secret@, now_s)
        }),
        r matches Ok(u) ==> ({
            &&& config matches Some(c)
            &&& auth_header matches Some(h)
            &&& bearer_claims(bearer_token(h@), c.jwt_secret@, u.user_id@, u.email@, now_s)
        }),
{
    let c = match config {
        Some(c) => c,
        None => {
            return Err(AuthError::ConfigNotFound);
        },
    };
    let h = match auth_header {
        Some(h) => h,
        None => {
            return Err(AuthError::MissingHeader);
        },
    };
    let token = match extract_bearer(h) {
        Some(t) => t,
        None => {
            return Err(AuthError::InvalidFormat);
        },
    };
    match verify_jwt(token, c.jwt_secret.as_str(), now_s) {
        Ok(claims) => Ok(AuthenticatedUser { user_id: claims.sub, email: claims.email }),
        Err(_) => Err(AuthError::InvalidToken),
    }
}

} // verus!
