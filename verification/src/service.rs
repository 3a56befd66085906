//! The authentication service: the register, login, refresh and verify use
//! cases, each a linear stateless flow over the password hasher, the token
//! codec and the user-store gateway.
//!
//! The service holds no mutable state; all state lives in the store or in
//! the tokens it issues. Store reads and writes are network work, so each
//! flow that needs one takes the store's answer as an argument and is
//! verified for every answer the store could give; the shell around the
//! crate performs the calls in between. Every flow takes the clock reading
//! `now` once and uses it for all timestamps of that flow, so access and
//! refresh expiries are computed from the same instant.

use vstd::prelude::*;

use crate::errors::AuthError;
use crate::models::User;
use crate::password::{digest_matches, hash_password, verify_password, MAX_PASSWORD_BYTES};
use crate::token::{
    access_verdict, decoded_access, decoded_refresh, issue_access, issue_refresh,
    parse_and_verify_access, parse_and_verify_refresh, refresh_verdict, ACCESS_TOKEN_TTL_SECONDS,
    REFRESH_TOKEN_TTL_SECONDS,
};

verus! {

/// What a caller supplies to register.
#[derive(Clone, Debug)]
pub struct RegisterRequest {
    pub username: String,
    pub email: String,
    pub password: String,
}

/// What a caller supplies to log in.
#[derive(Clone, Debug)]
pub struct LoginRequest {
    pub username: String,
    pub password: String,
}

/// What a caller supplies to rotate a refresh token.
#[derive(Clone, Debug)]
pub struct RefreshTokenRequest {
    pub refresh_token: String,
}

/// A successful authentication outcome: a fresh token pair, the bearer
/// token type, and the access token's lifetime in seconds.
#[derive(Clone, Debug)]
pub struct AuthResponse {
    pub access_token: String,
    pub refresh_token: String,
    pub token_type: String,
    pub expires_in: i64,
}

/// The authentication service: the two token secrets, nothing else. They
/// are read once at process start and treated as immutable; the secrets of
/// the two token families must differ, so leaking one does not compromise
/// the other.
pub struct AuthService {
    pub jwt_secret: String,
    pub refresh_token_secret: String,
}

impl AuthService {
    /// A fresh token pair just issued by `self` to the user `user_id` at
    /// time `now`: both tokens decode under their own family's secret to
    /// claims for that user, stamped from the single instant `now`, and the
    /// advertised token type and lifetime are the fixed bearer constants.
    pub open spec fn fresh_auth_response(
        self,
        resp: AuthResponse,
        user_id: Seq<char>,
        now: int,
    ) -> bool {
        &&& decoded_access(resp.access_token@, self.jwt_secret@) matches Some(c) && c.sub
            == user_id && c.iat == now && c.exp == now + ACCESS_TOKEN_TTL_SECONDS
        &&& decoded_refresh(resp.refresh_token@, self.refresh_token_secret@) matches Some(rc)
            && rc.user_id == user_id && rc.expires_at == now + REFRESH_TOKEN_TTL_SECONDS
        &&& resp.token_type@ == "Bearer"@
        &&& resp.expires_in == ACCESS_TOKEN_TTL_SECONDS
    }

    /// Builds the service over its two secrets, which must differ.
    pub fn new(jwt_secret: String, refresh_token_secret: String) -> (s: Self)
        requires
            jwt_secret@ != refresh_token_secret@,
        ensures
            s.jwt_secret == jwt_secret,
            s.refresh_token_secret == refresh_token_secret,
    {
        Self { jwt_secret, refresh_token_secret }
    }

    /// Issues the access and refresh tokens for `user_id` from the single
    /// instant `now`, with the fixed token type and lifetime. Always
    /// succeeds: signing both token families is infallible.
    pub fn generate_tokens(&self, user_id: &str, now: i64) -> (r: Result<AuthResponse, AuthError>)
        requires
            now <= i64::MAX - REFRESH_TOKEN_TTL_SECONDS,
        ensures
            r is Ok,
            r matches Ok(resp) ==> self.fresh_auth_response(resp, user_id@, now as int),
    {
        let access_token = issue_access(self.jwt_secret.as_str(), user_id, now)?;
        let (refresh_token, _token_id) = issue_refresh(
            self.refresh_token_secret.as_str(),
            user_id,
            now,
        )?;
        Ok(
            AuthResponse {
                access_token,
                refresh_token,
                token_type: "Bearer".to_owned(),
                expires_in: ACCESS_TOKEN_TTL_SECONDS,
            },
        )
    }

    /// The first register step: decides on the store's answer to the
    /// unique-username lookup. An existing user means the username is
    /// taken; otherwise the password is hashed and the draft to persist is
    /// handed back, stamped created and updated at `now` and carrying the
    /// digest, never the raw password. An oversize password is rejected as
    /// an input-validation failure before the hasher could truncate it.
    pub fn register(&self, request: &RegisterRequest, existing: Option<User>, now: i64) -> (r:
        Result<User, AuthError>)
        ensures
            existing is Some ==> r == Err::<User, AuthError>(AuthError::UsernameTaken),
            (existing is None && vstd::utf8::encode_utf8(request.password@).len()
                > MAX_PASSWORD_BYTES) ==> r == Err::<User, AuthError>(AuthError::Internal),
            r matches Ok(draft) ==> {
                &&& existing is None
                &&& draft._id is None
                &&& draft._rev is None
                &&& draft.username@ == request.username@
                &&& draft.email@ == request.email@
                &&& digest_matches(request.password@, draft.password_hash@)
                &&& draft.created_at == now
                &&& draft.updated_at == now
            },
            r matches Err(e) ==> (e == AuthError::UsernameTaken <==> existing is Some),
            r matches Err(e) ==> (e == AuthError::UsernameTaken || e == AuthError::Internal),
    {
        if existing.is_some() {
            return Err(AuthError::UsernameTaken);
        }
        let password_hash = hash_password(request.password.as_str())?;
        Ok(
            User {
                _id: None,
                _rev: None,
                username: request.username.clone(),
                email: request.email.clone(),
                password_hash,
                created_at: now,
                updated_at: now,
            },
        )
    }

    /// The second register step: once the store has persisted the draft and
    /// assigned it an id, issues the first token pair for the new user. A
    /// created record without an id is a store inconsistency and surfaces
    /// as an internal failure rather than a crash.
    pub fn register_complete(&self, created: &User, now: i64) -> (r: Result<
        AuthResponse,
        AuthError,
    >)
        requires
            now <= i64::MAX - REFRESH_TOKEN_TTL_SECONDS,
        ensures
            match created._id {
                Some(uid) => r matches Ok(resp) && self.fresh_auth_response(
                    resp,
                    uid@,
                    now as int,
                ),
                None => r == Err::<AuthResponse, AuthError>(AuthError::Internal),
            },
    {
        match &created._id {
            Some(uid) => self.generate_tokens(uid.as_str(), now),
            None => Err(AuthError::Internal),
        }
    }

    /// Login: decides on the store's answer to the username lookup. An
    /// unknown user and a wrong password fail with one and the same error,
    /// so a caller can never learn whether the username exists; a matching
    /// password earns a fresh token pair.
    pub fn login(&self, request: &LoginRequest, user: Option<User>, now: i64) -> (r: Result<
        AuthResponse,
        AuthError,
    >)
        requires
            now <= i64::MAX - REFRESH_TOKEN_TTL_SECONDS,
        ensures
            match user {
                None => r == Err::<AuthResponse, AuthError>(AuthError::InvalidCredentials),
                Some(u) => if !digest_matches(request.password@, u.password_hash@) {
                    r == Err::<AuthResponse, AuthError>(AuthError::InvalidCredentials)
                } else {
                    match u._id {
                        Some(uid) => r matches Ok(resp) && self.fresh_auth_response(
                            resp,
                            uid@,
                            now as int,
                        ),
                        None => r == Err::<AuthResponse, AuthError>(AuthError::Internal),
                    }
                },
            },
    {
        let u = match user {
            Some(u) => u,
            None => {
                return Err(AuthError::InvalidCredentials);
            },
        };
        if !verify_password(request.password.as_str(), u.password_hash.as_str()) {
            return Err(AuthError::InvalidCredentials);
        }
        match &u._id {
            Some(uid) => self.generate_tokens(uid.as_str(), now),
            None => Err(AuthError::Internal),
        }
    }

    /// Refresh rotation: checks the presented refresh token against the
    /// refresh secret at `now` and, while it is valid, issues a full fresh
    /// pair - a new access token and a new refresh token - for the user the
    /// old token names. No server-side ledger exists, so the presented
    /// token stays valid until its own natural expiry.
    pub fn refresh_token(&self, request: &RefreshTokenRequest, now: i64) -> (r: Result<
        AuthResponse,
        AuthError,
    >)
        requires
            now <= i64::MAX - REFRESH_TOKEN_TTL_SECONDS,
        ensures
            match refresh_verdict(request.refresh_token@, self.refresh_token_secret@, now as int) {
                Ok(c) => r matches Ok(resp) && self.fresh_auth_response(resp, c.user_id, now as int),
                Err(e) => r == Err::<AuthResponse, AuthError>(e),
            },
    {
        let claims = parse_and_verify_refresh(
            request.refresh_token.as_str(),
            self.refresh_token_secret.as_str(),
            now,
        )?;
        self.generate_tokens(claims.user_id.as_str(), now)
    }

    /// Stateless verification: checks an access token against the access
    /// secret at `now` and yields the authenticated user's id; any failure
    /// is the one undifferentiated rejection.
    pub fn verify_token(&self, token: &str, now: i64) -> (r: Result<String, AuthError>)
        ensures
            match access_verdict(token@, self.jwt_secret@, now as int) {
                Ok(c) => r matches Ok(uid) && uid@ == c.sub,
                Err(e) => r == Err::<String, AuthError>(e),
            },
    {
        let claims = parse_and_verify_access(token, self.jwt_secret.as_str(), now)?;
        Ok(claims.sub)
    }
}

} // verus!
