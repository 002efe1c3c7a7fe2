//! The token service: stateless bearer credentials.
//!
//! A token carries the caller's identity (`sub`, `email`) and its validity
//! bounds (`iat`, `exp`), signed with a symmetric secret under HMAC-SHA256.
//! Signing and signature checking are the signing crate's work, reached
//! through two trusted wrappers; the expiry check against the caller's clock
//! is verified code here.

use vstd::prelude::*;
use vstd::string::*;

use jsonwebtoken::{decode, encode, Algorithm, DecodingKey, EncodingKey, Header, Validation};

use crate::errors::TokenError;

verus! {

/// Tokens live for 24 hours.
pub const TOKEN_LIFETIME_SECS: i64 = 86400;

/// The signed payload of a token.
#[derive(Debug)]
pub struct Claims {
    /// The user's identifier, as a decimal string.
    pub sub: String,
    /// The user's email at mint time.
    pub email: String,
    /// Expiration time, seconds since the epoch.
    pub exp: i64,
    /// Issuance time, seconds since the epoch.
    pub iat: i64,
}

/// The compact token that signing these four claims with this secret
/// produces. HMAC-SHA256 signing is deterministic, so this is a function of
/// its arguments alone.
pub uninterp spec fn token_of(
    sub: Seq<char>,
    email: Seq<char>,
    exp: i64,
    iat: i64,
    secret: Seq<char>,
) -> Seq<char>;

/// What decoding a token against a secret yields, expiry not yet checked:
/// `None` when the token is malformed, signed with another secret or
/// algorithm, or missing a claim; otherwise the `(sub, email, exp, iat)`
/// claims. A function of the token and the secret alone.
pub uninterp spec fn decoded_claims(token: Seq<char>, secret: Seq<char>) -> Option<
    (Seq<char>, Seq<char>, i64, i64),
>;

/// The token decodes against the secret and is not yet expired at `now_s`.
pub open spec fn token_accepted(token: Seq<char>, secret: Seq<char>, now_s: i64) -> bool {
    match decoded_claims(token, secret) {
        Some(c) => c.2 > now_s,
        None => false,
    }
}

/// The token decodes against the secret to claims carrying this subject and
/// this email, and is not yet expired at `now_s`.
pub open spec fn bearer_claims(
    token: Seq<char>,
    secret: Seq<char>,
    sub: Seq<char>,
    email: Seq<char>,
    now_s: i64,
) -> bool {
    match decoded_claims(token, secret) {
        Some(c) => c.0 == sub && c.1 == email && c.2 > now_s,
        None => false,
    }
}

impl Claims {
    /// Claims for a caller, issued at `now_s` and expiring 24 hours later.
    pub fn new(user_id: String, email: String, now_s: i64) -> (c: Claims)
        requires
            0 <= now_s <= i64::MAX - TOKEN_LIFETIME_SECS,
        ensures
            c.sub == user_id,
            c.email == email,
            c.exp == now_s + TOKEN_LIFETIME_SECS,
            c.iat == now_s,
    {
        Claims { sub: user_id, email, exp: now_s + TOKEN_LIFETIME_SECS, iat: now_s }
    }
}

/// Relies on jsonwebtoken::encode with the default header, whose algorithm
/// is HS256: builds the compact token for these four claims. The encoding
/// and the HMAC signature are deterministic in the claims and the secret; a
/// compact token is never empty; decoding it with the same secret under
/// HS256 gives the claims back. Decoding demands an `exp` claim that parses
/// as an unsigned number, so a negative `exp` would encode fine but not
/// decode back: such claims are excluded here.
#[verifier::external_body]
fn sign_claims(sub: &str, email: &str, exp: i64, iat: i64, secret: &str) -> (r: Result<
    String,
    TokenError,
>)
    requires
        exp >= 0,
    ensures
        r matches Ok(t) ==> t@ == token_of(sub@, email@, exp, iat, secret@),
        r matches Ok(t) ==> decoded_claims(t@, secret@) == Some((sub@, email@, exp, iat)),
        r matches Ok(t) ==> t@.len() > 0,
        r matches Err(e) ==> e == TokenError::SigningFailed,
{
    let mut m = serde_json::Map::new();
    m.insert("sub".to_string(), serde_json::Value::from(sub));
    m.insert("email".to_string(), serde_json::Value::from(email));
    m.insert("exp".to_string(), serde_json::Value::from(exp));
    m.insert("iat".to_string(), serde_json::Value::from(iat));
    encode(&Header::default(), &m, &EncodingKey::from_secret(secret.as_bytes())).map_err(|_| TokenError::SigningFailed)
}

/// Relies on jsonwebtoken::decode under HS256: checks the compact form and
/// the signature and hands the claims out. Expiry is deliberately not
/// checked here (`validate_exp` is off, so the call never reads a clock and
/// its outcome is a function of the token and the secret alone); the caller
/// checks expiry against its own clock.
#[verifier::external_body]
fn parse_claims(token: &str, secret: &str) -> (r: Result<(String, String, i64, i64), TokenError>)
    ensures
        r matches Ok(c) ==> decoded_claims(token@, secret@) == Some((c.0@, c.1@, c.2, c.3)),
        r is Err ==> decoded_claims(token@, secret@) is None,
        r matches Err(e) ==> e == TokenError::InvalidToken,
{
    let mut v = Validation::new(Algorithm::HS256);
    v.validate_exp = false;
    let k = DecodingKey::from_secret(secret.as_bytes());
    let c = decode::<serde_json::Value>(token, &k, &v).map_err(|_| TokenError::InvalidToken)?.claims;
    let sub = c.get("sub").and_then(serde_json::Value::as_str).ok_or(TokenError::InvalidToken)?;
    let email = c.get("email").and_then(serde_json::Value::as_str).ok_or(TokenError::InvalidToken)?;
    let exp = c.get("exp").and_then(serde_json::Value::as_i64).ok_or(TokenError::InvalidToken)?;
    let iat = c.get("iat").and_then(serde_json::Value::as_i64).ok_or(TokenError::InvalidToken)?;
    Ok((sub.to_string(), email.to_string(), exp, iat))
}

/// Mints a token for a user: claims issued at `now_s`, expiring 24 hours
/// later, signed with the secret.
pub fn create_jwt(user_id: String, email: String, secret: &str, now_s: i64) -> (r: Result<
    String,
    TokenError,
>)
    requires
        0 <= now_s <= i64::MAX - TOKEN_LIFETIME_SECS,
    ensures
        r matches Ok(t) ==> t@ == token_of(
            user_id@,
            email@,
            (now_s + TOKEN_LIFETIME_SECS) as i64,
            now_s,
            secret@,
        ),
        r matches Ok(t) ==> decoded_claims(t@, secret@) == Some(
            (user_id@, email@, (now_s + TOKEN_LIFETIME_SECS) as i64, now_s),
        ),
        r matches Ok(t) ==> t@.len() > 0,
        r matches Err(e) ==> e == TokenError::SigningFailed,
{
    let claims = Claims::new(user_id, email, now_s);
    sign_claims(claims.sub.as_str(), claims.email.as_str(), claims.exp, claims.iat, secret)
}

/// Checks a token: decodes it against the secret and requires `exp > now_s`.
/// Succeeds exactly on tokens that decode and are unexpired; an accepted
/// token's claims are the decoded ones.
pub fn verify_jwt(token: &str, secret: &str, now_s: i64) -> (r: Result<Claims, TokenError>)
    ensures
        r is Ok <==> token_accepted(token@, secret@, now_s),
        r matches Ok(c) ==> decoded_claims(token@, secret@) == Some(
            (c.sub@, c.email@, c.exp, c.iat),
        ) && c.exp > now_s,
        r matches Err(e) ==> e == TokenError::InvalidToken,
{
    match parse_claims(token, secret) {
        Ok((sub, email, exp, iat)) => {
            if exp > now_s {
                Ok(Claims { sub, email, exp, iat })
            } else {
                Err(TokenError::InvalidToken)
            }
        },
        Err(_) => Err(TokenError::InvalidToken),
    }
}

} // verus!
