//! User accounts and the data carried by the authentication collaborator.
//!
//! Credential verification, hashing and token signing happen outside the
//! engine; what stands here are the account values the engine reads and the
//! decisions around them that are pure: input validation, claim and session
//! assembly, expiry arithmetic.

use vstd::prelude::*;

use crate::custom_types::UserRoles;
use crate::error::{AuthError, MyError};

verus! {

/// How long an issued session lives, in milliseconds (seven days).
pub const SESSION_TTL_MS: u64 = 604_800_000;

/// A user account row.
#[derive(Debug)]
pub struct User {
    pub id: u128,
    pub username: String,
    pub email: String,
    pub password_hash: String,
    pub created_at: u64,
    pub role: UserRoles,
}

/// Credentials presented at login.
#[derive(Debug)]
pub struct LoginRequest {
    pub email: String,
    pub password: String,
}

/// The token handed back after a successful login or signup.
#[derive(Debug)]
pub struct LoginResponse {
    pub access_token: String,
    pub token_type: String,
}

/// The data needed to open an account.
#[derive(Debug)]
pub struct SignupRequest {
    pub email: String,
    pub password: String,
    pub username: String,
}

/// A role change applied to an account.
#[derive(Debug)]
pub struct PatchUser {
    pub role: UserRoles,
}

/// The claims carried inside an issued token.
#[derive(Debug)]
pub struct Claims {
    pub sub: u128,
    pub company: String,
    pub exp: u64,
    pub sid: u128,
}

/// A persisted login session.
#[derive(Debug)]
pub struct Session {
    pub id: u128,
    pub user_id: u128,
    pub token: String,
    pub expires_at: u64,
    pub created_at: u64,
    pub user_agent: String,
    pub ip: String,
}

impl User {
    /// The account after a role patch: only the role changes.
    pub fn apply_patch(self, patch: &PatchUser) -> (r: User)
        ensures
            r.id == self.id,
            r.username == self.username,
            r.email == self.email,
            r.password_hash == self.password_hash,
            r.created_at == self.created_at,
            r.role == patch.role,
    {
        User {
            id: self.id,
            username: self.username,
            email: self.email,
            password_hash: self.password_hash,
            created_at: self.created_at,
            role: patch.role,
        }
    }
}

/// When a session issued at `created_ms` expires.
pub open spec fn session_expiry_spec(created_ms: int) -> int {
    created_ms + SESSION_TTL_MS
}

impl LoginRequest {
    /// Rejects empty credentials before any account is looked up: a login
    /// with an empty email or an empty password fails with
    /// [`AuthError::WrongCredentials`], and only such a login does.
    pub fn validate(&self) -> (r: Result<(), MyError>)
        ensures
            r == Ok::<(), MyError>(()) <==> (self.email@.len() > 0 && self.password@.len() > 0),
            r is Err ==> r == Err::<(), MyError>(MyError::Auth(AuthError::WrongCredentials)),
    {
        if self.email.as_str().is_empty() || self.password.as_str().is_empty() {
            Err(MyError::Auth(AuthError::WrongCredentials))
        } else {
            Ok(())
        }
    }
}

impl Claims {
    /// The claims of a session issued at `created_ms`: subject, session id
    /// and an expiry one TTL after issue.
    pub fn issue(sub: u128, sid: u128, company: String, created_ms: u64) -> (c: Claims)
        requires
            created_ms + SESSION_TTL_MS <= u64::MAX,
        ensures
            c.sub == sub,
            c.sid == sid,
            c.company == company,
            c.exp == session_expiry_spec(created_ms as int),
    {
        Claims { sub, company, exp: created_ms + SESSION_TTL_MS, sid }
    }
}

impl Session {
    /// The session row persisted for a freshly issued token.
    pub fn build(
        id: u128,
        user_id: u128,
        token: String,
        created_ms: u64,
        user_agent: String,
        ip: String,
    ) -> (s: Session)
        requires
            created_ms + SESSION_TTL_MS <= u64::MAX,
        ensures
            s.id == id,
            s.user_id == user_id,
            s.token == token,
            s.created_at == created_ms,
            s.expires_at == session_expiry_spec(created_ms as int),
            s.user_agent == user_agent,
            s.ip == ip,
    {
        Session {
            id,
            user_id,
            token,
            expires_at: created_ms + SESSION_TTL_MS,
            created_at: created_ms,
            user_agent,
            ip,
        }
    }
}

} // verus!
