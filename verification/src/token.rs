//! The token codec: issuing and checking the two token families.
//!
//! A token is a compact signed string of three dot-separated base64url
//! segments. Access tokens and refresh tokens carry different claim schemas
//! and are signed with independent secrets, so leaking one secret does not
//! compromise the other family. What a token decodes to under a secret is
//! named by [`decoded_access`] and [`decoded_refresh`]; issuing promises that
//! the fresh token decodes to the claims it was built from, and checking is
//! exact over those names together with the caller's clock reading, so the
//! expiry rules themselves are ordinary verified arithmetic.

use vstd::prelude::*;

use crate::errors::AuthError;

verus! {

/// Lifetime of an access token in seconds: one hour. The `expires_in` field
/// handed to callers is derived from this same constant.
pub const ACCESS_TOKEN_TTL_SECONDS: i64 = 3600;

/// Lifetime of a refresh token in seconds: thirty days.
pub const REFRESH_TOKEN_TTL_SECONDS: i64 = 30 * 86400;

/// The payload inside a short-lived bearer token.
#[derive(Clone, Debug, PartialEq, Eq)]
pub struct AccessClaims {
    /// Subject: the id of the authenticated user.
    pub sub: String,
    /// Expiry, seconds since the Unix epoch.
    pub exp: i64,
    /// Issued-at, seconds since the Unix epoch.
    pub iat: i64,
    /// Per-token unique identifier, used only for traceability.
    pub jti: String,
}

/// The payload inside a long-lived rotation token.
#[derive(Clone, Debug, PartialEq, Eq)]
pub struct RefreshClaims {
    /// The id of the user the token was issued to.
    pub user_id: String,
    /// Per-token unique identifier.
    pub token_id: String,
    /// Absolute expiry, seconds since the Unix epoch.
    pub expires_at: i64,
}

/// The mathematical shadow of [`AccessClaims`].
pub struct AccessClaimsView {
    pub sub: Seq<char>,
    pub exp: int,
    pub iat: int,
    pub jti: Seq<char>,
}

/// The mathematical shadow of [`RefreshClaims`].
pub struct RefreshClaimsView {
    pub user_id: Seq<char>,
    pub token_id: Seq<char>,
    pub expires_at: int,
}

impl View for AccessClaims {
    type V = AccessClaimsView;

    open spec fn view(&self) -> AccessClaimsView {
        AccessClaimsView {
            sub: self.sub@,
            exp: self.exp as int,
            iat: self.iat as int,
            jti: self.jti@,
        }
    }
}

impl View for RefreshClaims {
    type V = RefreshClaimsView;

    open spec fn view(&self) -> RefreshClaimsView {
        RefreshClaimsView {
            user_id: self.user_id@,
            token_id: self.token_id@,
            expires_at: self.expires_at as int,
        }
    }
}

/// The access claims that `token` carries under `secret`, or nothing if the
/// token is malformed, carries another claim schema, or its signature does
/// not validate against `secret`. Deterministic in the two arguments; expiry
/// plays no part here.
pub uninterp spec fn decoded_access(token: Seq<char>, secret: Seq<char>) -> Option<
    AccessClaimsView,
>;

/// The refresh claims that `token` carries under `secret`, or nothing;
/// the refresh-family counterpart of [`decoded_access`].
pub uninterp spec fn decoded_refresh(token: Seq<char>, secret: Seq<char>) -> Option<
    RefreshClaimsView,
>;

/// Relies on jsonwebtoken::encode together with jsonwebtoken::decode: a token
/// signed over these claims decodes, under the same secret, back to the same
/// claims. Signing never fails on this path: the default header's symmetric
/// scheme matches the secret key's family, the underlying MAC accepts a key
/// of any length, and serializing a string-keyed object is infallible, so a
/// token is always produced.
#[verifier::external_body]
fn jwt_encode_access(claims: &AccessClaims, secret: &str) -> (r: Option<String>)
    ensures
        r is Some,
        r matches Some(t) ==> decoded_access(t@, secret@) == Some(claims@),
{
    let mut m = serde_json::Map::new();
    m.insert("sub".to_owned(), serde_json::Value::from(claims.sub.clone()));
    m.insert("exp".to_owned(), serde_json::Value::from(claims.exp));
    m.insert("iat".to_owned(), serde_json::Value::from(claims.iat));
    m.insert("jti".to_owned(), serde_json::Value::from(claims.jti.clone()));
    let key = jsonwebtoken::EncodingKey::from_secret(secret.as_bytes());
    jsonwebtoken::encode(&jsonwebtoken::Header::default(), &serde_json::Value::Object(m), &key).ok()
}

/// Relies on jsonwebtoken::decode: checks the token's structure and its
/// signature against `secret` and hands back the claims, a deterministic
/// function of the two arguments (expiry is left to the caller, so the clock
/// plays no part). Any failure is reported as no claims.
#[verifier::external_body]
fn jwt_decode_access(token: &str, secret: &str) -> (r: Option<AccessClaims>)
    ensures
        r matches Some(c) ==> decoded_access(token@, secret@) == Some(c@),
        r is None ==> decoded_access(token@, secret@) is None,
{
    let mut validation = jsonwebtoken::Validation::new(jsonwebtoken::Algorithm::HS256);
    validation.validate_exp = false;
    validation.required_spec_claims = std::collections::HashSet::new();
    let key = jsonwebtoken::DecodingKey::from_secret(secret.as_bytes());
    let data = jsonwebtoken::decode::<serde_json::Value>(token, &key, &validation).ok()?;
    Some(AccessClaims {
        sub: data.claims.get("sub")?.as_str()?.to_owned(),
        exp: data.claims.get("exp")?.as_i64()?,
        iat: data.claims.get("iat")?.as_i64()?,
        jti: data.claims.get("jti")?.as_str()?.to_owned(),
    })
}

/// Relies on jsonwebtoken::encode together with jsonwebtoken::decode, as the
/// access-family counterpart does, including that signing never fails on the
/// symmetric path.
#[verifier::external_body]
fn jwt_encode_refresh(claims: &RefreshClaims, secret: &str) -> (r: Option<String>)
    ensures
        r is Some,
        r matches Some(t) ==> decoded_refresh(t@, secret@) == Some(claims@),
{
    let mut m = serde_json::Map::new();
    m.insert("user_id".to_owned(), serde_json::Value::from(claims.user_id.clone()));
    m.insert("token_id".to_owned(), serde_json::Value::from(claims.token_id.clone()));
    m.insert("expires_at".to_owned(), serde_json::Value::from(claims.expires_at));
    let key = jsonwebtoken::EncodingKey::from_secret(secret.as_bytes());
    jsonwebtoken::encode(&jsonwebtoken::Header::default(), &serde_json::Value::Object(m), &key).ok()
}

/// Relies on jsonwebtoken::decode, as the access-family counterpart does.
#[verifier::external_body]
fn jwt_decode_refresh(token: &str, secret: &str) -> (r: Option<RefreshClaims>)
    ensures
        r matches Some(c) ==> decoded_refresh(token@, secret@) == Some(c@),
        r is None ==> decoded_refresh(token@, secret@) is None,
{
    let mut validation = jsonwebtoken::Validation::new(jsonwebtoken::Algorithm::HS256);
    validation.validate_exp = false;
    validation.required_spec_claims = std::collections::HashSet::new();
    let key = jsonwebtoken::DecodingKey::from_secret(secret.as_bytes());
    let data = jsonwebtoken::decode::<serde_json::Value>(token, &key, &validation).ok()?;
    Some(RefreshClaims {
        user_id: data.claims.get("user_id")?.as_str()?.to_owned(),
        token_id: data.claims.get("token_id")?.as_str()?.to_owned(),
        expires_at: data.claims.get("expires_at")?.as_i64()?,
    })
}

/// Relies on uuid::Uuid::new_v4 via its hyphenated textual form: a random
/// version-4 identifier, 36 characters long; random, so nothing more can be
/// promised of it.
#[verifier::external_body]
fn new_token_id() -> (r: String)
    ensures
        r@.len() == 36,
{
    uuid::Uuid::new_v4().to_string()
}

/// What checking an access token must yield: the claims when the token
/// decodes under `secret` and has not expired at `now` (expiry exactly at
/// `now` already counts as expired), and the one undifferentiated rejection
/// otherwise.
pub open spec fn access_verdict(token: Seq<char>, secret: Seq<char>, now: int) -> Result<
    AccessClaimsView,
    AuthError,
> {
    match decoded_access(token, secret) {
        Some(c) => if now < c.exp {
            Ok(c)
        } else {
            Err(AuthError::InvalidToken)
        },
        None => Err(AuthError::InvalidToken),
    }
}

/// What checking a refresh token must yield: its claims while `now` has not
/// passed `expires_at`; a decodable but expired token is distinguished from a
/// malformed or forged one, so a client can prompt re-login rather than
/// retry.
pub open spec fn refresh_verdict(token: Seq<char>, secret: Seq<char>, now: int) -> Result<
    RefreshClaimsView,
    AuthError,
> {
    match decoded_refresh(token, secret) {
        Some(c) => if c.expires_at < now {
            Err(AuthError::RefreshTokenExpired)
        } else {
            Ok(c)
        },
        None => Err(AuthError::InvalidToken),
    }
}

/// Signs a fresh access token for `user_id`: issued at `now`, expiring one
/// hour later, with a random per-token identifier. Issuance always
/// succeeds: symmetric signing cannot fail.
pub fn issue_access(secret: &str, user_id: &str, now: i64) -> (r: Result<String, AuthError>)
    requires
        now <= i64::MAX - ACCESS_TOKEN_TTL_SECONDS,
    ensures
        r is Ok,
        r matches Ok(t) ==> (decoded_access(t@, secret@) matches Some(c) && c.sub == user_id@
            && c.iat == now as int && c.exp == now + ACCESS_TOKEN_TTL_SECONDS),
{
    let claims = AccessClaims {
        sub: user_id.to_owned(),
        exp: now + ACCESS_TOKEN_TTL_SECONDS,
        iat: now,
        jti: new_token_id(),
    };
    match jwt_encode_access(&claims, secret) {
        Some(t) => Ok(t),
        None => Err(AuthError::Internal),
    }
}

/// Signs a fresh refresh token for `user_id`, expiring thirty days after
/// `now`, and returns it beside its token identifier. Issuance always
/// succeeds: symmetric signing cannot fail.
pub fn issue_refresh(secret: &str, user_id: &str, now: i64) -> (r: Result<
    (String, String),
    AuthError,
>)
    requires
        now <= i64::MAX - REFRESH_TOKEN_TTL_SECONDS,
    ensures
        r is Ok,
        r matches Ok(p) ==> (decoded_refresh(p.0@, secret@) matches Some(c) && c.user_id
            == user_id@ && c.token_id == p.1@ && c.expires_at == now + REFRESH_TOKEN_TTL_SECONDS),
{
    let token_id = new_token_id();
    let claims = RefreshClaims {
        user_id: user_id.to_owned(),
        token_id: token_id.clone(),
        expires_at: now + REFRESH_TOKEN_TTL_SECONDS,
    };
    match jwt_encode_refresh(&claims, secret) {
        Some(t) => Ok((t, token_id)),
        None => Err(AuthError::Internal),
    }
}

/// Checks an access token against `secret` at time `now`. The caller learns
/// only one undifferentiated rejection, whichever of the structure, the
/// signature or the expiry failed, to avoid oracle attacks.
pub fn parse_and_verify_access(token: &str, secret: &str, now: i64) -> (r: Result<
    AccessClaims,
    AuthError,
>)
    ensures
        r matches Ok(c) ==> access_verdict(token@, secret@, now as int) == Ok::<
            AccessClaimsView,
            AuthError,
        >(c@),
        r matches Err(e) ==> access_verdict(token@, secret@, now as int) == Err::<
            AccessClaimsView,
            AuthError,
        >(e),
{
    match jwt_decode_access(token, secret) {
        Some(c) => {
            if now < c.exp {
                Ok(c)
            } else {
                Err(AuthError::InvalidToken)
            }
        },
        None => Err(AuthError::InvalidToken),
    }
}

/// Checks a refresh token against `secret` at time `now`, distinguishing a
/// token past its own expiry from a malformed or forged one.
pub fn parse_and_verify_refresh(token: &str, secret: &str, now: i64) -> (r: Result<
    RefreshClaims,
    AuthError,
>)
    ensures
        r matches Ok(c) ==> refresh_verdict(token@, secret@, now as int) == Ok::<
            RefreshClaimsView,
            AuthError,
        >(c@),
        r matches Err(e) ==> refresh_verdict(token@, secret@, now as int) == Err::<
            RefreshClaimsView,
            AuthError,
        >(e),
{
    match jwt_decode_refresh(token, secret) {
        Some(c) => {
            if c.expires_at < now {
                Err(AuthError::RefreshTokenExpired)
            } else {
                Ok(c)
            }
        },
        None => Err(AuthError::InvalidToken),
    }
}

/// Round trip: a token that decodes to claims issued at `t` with the fixed
/// one-hour lifetime is accepted when checked at `t` itself, yielding exactly
/// those claims - in particular the subject it was issued for and an expiry
/// one hour past `t`.
pub proof fn lemma_access_round_trip(
    token: Seq<char>,
    secret: Seq<char>,
    c: AccessClaimsView,
    t: int,
)
    requires
        decoded_access(token, secret) == Some(c),
        c.iat == t,
        c.exp == t + ACCESS_TOKEN_TTL_SECONDS,
    ensures
        access_verdict(token, secret, t) == Ok::<AccessClaimsView, AuthError>(c),
{
}

/// Expiry boundary: a token whose claims were issued at `t` with the fixed
/// one-hour lifetime is rejected, indistinguishably from a forged one, when
/// checked at any time from `t` plus one hour on, and still accepted at any
/// earlier time - at one second before the boundary in particular.
pub proof fn lemma_access_expiry_boundary(
    token: Seq<char>,
    secret: Seq<char>,
    c: AccessClaimsView,
    t: int,
    now: int,
)
    requires
        decoded_access(token, secret) == Some(c),
        c.exp == t + ACCESS_TOKEN_TTL_SECONDS,
    ensures
        now >= t + ACCESS_TOKEN_TTL_SECONDS ==> access_verdict(token, secret, now) == Err::<
            AccessClaimsView,
            AuthError,
        >(AuthError::InvalidToken),
        now < t + ACCESS_TOKEN_TTL_SECONDS ==> access_verdict(token, secret, now) == Ok::<
            AccessClaimsView,
            AuthError,
        >(c),
{
}

} // verus!
